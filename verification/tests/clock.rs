use cloud_champion::electricity::ELECTRICITY_BILL_PERIOD;
use cloud_champion::engine::GameEngine;
use cloud_champion::node::WaitingRequest;
use cloud_champion::queue::RequestEvent;
use cloud_champion::{Memory, Money, ServiceKind, WorldState};

#[test]
fn clock_moves_on_and_never_back() {
    let mut state = WorldState::default();
    let mut engine = GameEngine::with_seed(1);
    assert!(!engine.finish_update(&mut state, 500));
    assert_eq!(state.time, 500);
    let before = state.clone();
    assert!(!engine.finish_update(&mut state, 499));
    assert_eq!(state, before);
    assert!(!engine.finish_update(&mut state, 500));
    assert_eq!(state, before);
}

#[test]
fn save_is_asked_for_once_in_a_save_period() {
    let mut state = WorldState::default();
    let mut engine = GameEngine::with_seed(1);
    assert!(!engine.finish_update(&mut state, 359_999));
    assert!(engine.finish_update(&mut state, 360_000));
    assert!(!engine.finish_update(&mut state, 360_500));
    assert!(engine.finish_update(&mut state, 1_440_000));
}

#[test]
fn demand_grows_at_the_end_of_its_period() {
    let mut state = WorldState::default();
    state.demand = 1_000;
    state.demand_rate = 250;
    let mut engine = GameEngine::with_seed(1);
    engine.finish_update(&mut state, 149_999);
    assert_eq!(state.demand, 1_000);
    engine.finish_update(&mut state, 150_000);
    assert_eq!(state.demand, 1_250);
    engine.finish_update(&mut state, 170_000);
    assert_eq!(state.demand, 1_250);
    // one step over two periods grows the demand once
    engine.finish_update(&mut state, 470_000);
    assert_eq!(state.demand, 1_500);
}

#[test]
fn bill_comes_at_the_end_of_its_period_if_it_is_worth_it() {
    let mut state = WorldState::default();
    let mut engine = GameEngine::with_seed(1);
    // 1.56 Wattever at 32 cents come to 49.92 cents: no bill
    state.electricity.add_consumption(156_000);
    assert_eq!(state.electricity.check_bill(), Money::millicents(49_920));
    engine.finish_update(&mut state, ELECTRICITY_BILL_PERIOD);
    assert_eq!(state.electricity.total_due, Money::zero());
    assert_eq!(state.electricity.consumed, 156_000);
    assert_eq!(state.electricity.last_bill_time, 0);
    assert_eq!(state.electricity.energy_consumption_rate, 156_000);
    assert_eq!(state.electricity.recent_energy_consumed, 0);

    // one more job within the period, and the bill comes at its end
    state.electricity.add_consumption(1_000);
    assert_eq!(state.electricity.check_bill(), Money::millicents(50_240));
    engine.finish_update(&mut state, 2 * ELECTRICITY_BILL_PERIOD - 1);
    assert_eq!(state.electricity.total_due, Money::zero());
    engine.finish_update(&mut state, 2 * ELECTRICITY_BILL_PERIOD);
    assert_eq!(state.electricity.total_due, Money::millicents(50_240));
    assert_eq!(state.electricity.consumed, 0);
    assert_eq!(state.electricity.total_consumed, 157_000);
    assert_eq!(state.electricity.last_bill_time, 2 * ELECTRICITY_BILL_PERIOD);
}

#[test]
fn power_is_saved_while_a_large_bill_is_unpaid() {
    let mut state = WorldState::default();
    state.electricity.total_due = Money::dollars(10);
    state.electricity.last_bill_time = 1_000;
    state.time = 1_000 + ELECTRICITY_BILL_PERIOD;
    assert!(!state.is_powersaving());
    state.electricity.total_due = Money::dollars(10) + Money::millicents(1);
    assert!(state.is_powersaving());
    state.time -= 1;
    assert!(!state.is_powersaving());

    // a quarter of the cores, and four times the time
    state.time += 1;
    state.nodes[0].num_cores = 8;
    state.nodes[0].processing = 1;
    assert_eq!(state.nodes[0].free_cores(true), 1);
    assert_eq!(state.nodes[0].free_cores(false), 7);
    assert!(!state.nodes[0].is_busy(true));
    state.nodes[0].processing = 2;
    assert!(state.nodes[0].is_busy(true));
    assert_eq!(state.nodes[0].free_cores(true), 0);
    assert_eq!(state.nodes[0].processing_time(ServiceKind::Base, 0, 2, false, false), 11_500);
    assert_eq!(state.nodes[0].processing_time(ServiceKind::Base, 0, 2, true, false), 46_000);
    assert_eq!(state.nodes[0].processing_time(ServiceKind::Base, 0, 2, true, true), 2_300);
    assert_eq!(state.nodes[0].processing_time(ServiceKind::Base, 4, 0, false, true), 1);

    // no electricity is counted while power is saved
    let mut engine = GameEngine::with_seed(1);
    let done = RequestEvent::new_arrived(0, None, 1, ServiceKind::Base, false)
        .into_routed(0, 0)
        .into_processed(0, 1, Memory::zero());
    let now = state.time;
    engine.process_processed(&mut state, now, done, 0, Memory::zero());
    assert_eq!(state.electricity.consumed, 0);
}

#[test]
fn old_requests_are_given_up_at_the_sweep() {
    let mut state = WorldState::default();
    let mut engine = GameEngine::with_seed(1);
    let waiting = |timestamp: u64, amount: u32| WaitingRequest {
        timestamp,
        amount,
        user_spec_id: None,
        service: ServiceKind::Base,
        mem_required: Memory::kb(512 * amount as i64),
    };
    state.nodes[0].processing = 1;
    state.nodes[0].ram_reserved = Memory::mb(32);
    state.nodes[0].ram_usage = Memory::mb(32) + Memory::kb(512 * 10);
    state.nodes[0].requests.push_back(waiting(1_000, 3));
    state.nodes[0].requests.push_back(waiting(39_999, 5));
    state.nodes[0].requests.push_back(waiting(40_000, 2));
    state.time = 279_000;
    assert!(state.check_sound());

    // a request times out when it has waited for more than 240 000
    engine.finish_update(&mut state, 279_999);
    assert_eq!(state.nodes[0].requests.len(), 3);
    engine.finish_update(&mut state, 280_000);
    assert_eq!(state.requests_dropped, 8);
    assert_eq!(state.nodes[0].requests.len(), 1);
    assert_eq!(state.nodes[0].requests[0], waiting(40_000, 2));
    assert_eq!(state.nodes[0].ram_usage, Memory::mb(32) + Memory::kb(512 * 2));
    assert_eq!(state.nodes[0].processing, 1);

    let mut node = state.nodes[0].clone();
    assert_eq!(node.clear_timedout_requests(280_001), 2);
    assert_eq!(node.requests.len(), 0);
    assert_eq!(node.ram_usage, Memory::mb(32));
}

#[test]
fn rates_are_taken_at_the_major_update() {
    let mut state = WorldState::default();
    state.can_see_request_rates = true;
    state.spam_protection = 1_000;
    let mut engine = GameEngine::with_seed(1);
    let good = RequestEvent::new_arrived(0, None, 6, ServiceKind::Base, false).into_routed(0, 0);
    let large = RequestEvent::new_arrived(0, None, 1, ServiceKind::Awesome, false).into_routed(0, 0);
    let bad = RequestEvent::new_arrived(0, Some(1), 1, ServiceKind::Base, true).into_routed(0, 0);
    engine.process_event(&mut state, 0, good, cloud_champion::engine::Arrival { delay: 0, amount: 1 });
    let done = engine.pop_due(u64::MAX).unwrap();
    engine.process_event(&mut state, 0, done, cloud_champion::engine::Arrival { delay: 0, amount: 1 });
    engine.process_event(&mut state, 0, large, cloud_champion::engine::Arrival { delay: 0, amount: 1 });
    engine.process_event(&mut state, 0, bad, cloud_champion::engine::Arrival { delay: 0, amount: 1 });
    assert_eq!(state.requests_dropped, 1);
    assert_eq!(state.requests_failed, 1);
    engine.finish_update(&mut state, 2_499);
    assert_eq!((engine.drop_rate, engine.failure_rate), (0, 0));
    engine.finish_update(&mut state, 2_500);
    // six fulfilled, one dropped, one failed
    assert_eq!((engine.drop_rate, engine.failure_rate), (125, 125));
    // nothing was counted since: the rates stay
    engine.finish_update(&mut state, 5_000);
    assert_eq!((engine.drop_rate, engine.failure_rate), (125, 125));
}
