use cloud_champion::queue::{RequestEvent, RequestEventQueue, RequestEventStage};
use cloud_champion::{Memory, ServiceKind};

#[test]
fn pops_come_in_the_order_of_time() {
    let mut queue = RequestEventQueue::new();
    assert_eq!(queue.last_time(), 0);
    assert_eq!(queue.pop(), None);
    assert_eq!(queue.peek(), None);
    // a sequence of pushes in no order, with times that repeat
    let mut x: u64 = 12_345;
    for i in 0..500u32 {
        x = x.wrapping_mul(6_364_136_223_846_793_005).wrapping_add(1_442_695_040_888_963_407);
        let timestamp = (x >> 33) % 50;
        queue.push(RequestEvent::new_arrived(timestamp, Some(i), 1, ServiceKind::Base, false));
    }
    assert_eq!(queue.len(), 500);
    let mut last: Option<RequestEvent> = None;
    let mut popped = 0;
    while let Some(event) = queue.pop() {
        if let Some(before) = last {
            assert!(before.timestamp <= event.timestamp);
            // events of the same time come out in the order in which they went in
            if before.timestamp == event.timestamp {
                assert!(before.user_spec_id < event.user_spec_id);
            }
        }
        last = Some(event);
        popped += 1;
    }
    assert_eq!(popped, 500);
    assert_eq!(queue.len(), 0);
}

#[test]
fn events_go_through_their_stages() {
    let arrived = RequestEvent::new_arrived(100, Some(7), 3, ServiceKind::Epic, true);
    assert_eq!(arrived.kind, RequestEventStage::RequestArrived);
    let routed = arrived.into_routed(28, 4);
    assert_eq!(
        routed,
        RequestEvent {
            timestamp: 128,
            user_spec_id: Some(7),
            amount: 3,
            service: ServiceKind::Epic,
            bad: true,
            kind: RequestEventStage::RequestRouted { node_num: 4 },
        }
    );
    let processed = routed.into_processed(2, 1_000, Memory::mb(3));
    assert_eq!(
        processed,
        RequestEvent {
            timestamp: 1_128,
            user_spec_id: Some(7),
            amount: 3,
            service: ServiceKind::Epic,
            bad: true,
            kind: RequestEventStage::RequestProcessed { node_num: 2, ram_required: Memory::mb(3) },
        }
    );
    // time stops at its end
    let late = RequestEvent::new_arrived(u64::MAX - 5, None, 1, ServiceKind::Base, false);
    assert_eq!(late.into_routed(9, 0).timestamp, u64::MAX);
}
