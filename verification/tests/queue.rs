use cloud_champion::queue::{RequestEvent, RequestEventQueue};
use cloud_champion::ServiceKind;

#[test]
fn test_queue() {
    let mut queue = RequestEventQueue::new();

    // add a few events in random order
    queue.push(RequestEvent::new_arrived(
        1000,
        Some(1),
        1,
        ServiceKind::Base,
        false,
    ));

    queue.push(RequestEvent::new_arrived(
        800,
        Some(2),
        1,
        ServiceKind::Base,
        false,
    ));

    queue.push(RequestEvent::new_arrived(
        50,
        Some(3),
        1,
        ServiceKind::Base,
        true,
    ));

    queue.push(RequestEvent::new_arrived(
        2020,
        Some(4),
        1,
        ServiceKind::Super,
        false,
    ));
    queue.push(RequestEvent::new_arrived(
        1620,
        None,
        1,
        ServiceKind::Base,
        false,
    ));

    // check the time of the next event
    assert_eq!(queue.next_event_time(), Some(50));

    // check that all events are popped in order
    let event = queue.pop().unwrap();
    assert_eq!(event.timestamp, 50);
    assert_eq!(event.user_spec_id, Some(3));
    assert_eq!(event.service, ServiceKind::Base);

    let event = queue.pop().unwrap();
    assert_eq!(event.timestamp, 800);
    assert_eq!(event.user_spec_id, Some(2));

    let event = queue.pop().unwrap();
    assert_eq!(event.timestamp, 1000);
    assert_eq!(event.user_spec_id, Some(1));

    let event = queue.pop().unwrap();
    assert_eq!(event.timestamp, 1620);
    assert_eq!(event.user_spec_id, None);

    let event = queue.pop().unwrap();
    assert_eq!(event.timestamp, 2020);
    assert_eq!(event.user_spec_id, Some(4));

    // we're done
    assert_eq!(queue.next_event_time(), None);
}
