use cloud_champion::engine::{Arrival, GameEngine, RoutedRolls};
use cloud_champion::node::{Admission, CloudNode, WaitingRequest};
use cloud_champion::purchase::ActionOutcome;
use cloud_champion::queue::{RequestEvent, RequestEventStage};
use cloud_champion::routing::{RoutingDecision, ROUTING_QUEUE_CAPACITY};
use cloud_champion::state::RoutingLevel;
use cloud_champion::{CloudUserSpec, Memory, Money, Ops, PlayerAction, ServiceKind, WorldState};

fn no_arrival() -> Arrival {
    Arrival { delay: 1_000, amount: 1 }
}

/// Processes every event that is due at `time`, with the same arrival for
/// every cohort, and returns the events in the order in which they were
/// processed.
fn run_until(engine: &mut GameEngine, state: &mut WorldState, time: u64, arrival: Arrival) -> Vec<RequestEvent> {
    let mut seen = Vec::new();
    while let Some(event) = engine.pop_due(time) {
        seen.push(event);
        engine.process_event(state, time, event, arrival);
        assert!(state.check_sound());
        assert!(seen.len() < 100_000);
    }
    seen
}

#[test]
fn single_click_on_a_single_node_is_processed_once() {
    let mut state = WorldState::default();
    let mut engine = GameEngine::with_seed(7);
    let catalog = Vec::new();
    assert_eq!(state.nodes.len(), 1);
    assert_eq!(state.nodes[0].num_cores, 1);
    assert_eq!(state.cache_level, 0);

    let outcome = engine.apply_action(
        &mut state,
        PlayerAction::OpClick { kind: ServiceKind::Base, amount: 1 },
        &catalog,
    );
    assert_eq!(outcome, ActionOutcome::Applied { new_cohorts: 0 });
    assert_eq!(engine.pending_events(), 1);

    // the job is not done one time unit before the base duration is over
    let mut seen = run_until(&mut engine, &mut state, 5_749, no_arrival());
    assert_eq!(seen.len(), 2);
    assert_eq!(state.base_service.total, Ops(0));
    assert_eq!(state.nodes[0].processing, 1);
    seen.extend(run_until(&mut engine, &mut state, 5_750, no_arrival()));
    assert_eq!(state.base_service.total, Ops(1));
    seen.extend(run_until(&mut engine, &mut state, 100_000, no_arrival()));
    let processed: Vec<&RequestEvent> = seen
        .iter()
        .filter(|e| matches!(e.kind, RequestEventStage::RequestProcessed { .. }))
        .collect();
    assert_eq!(seen.len(), 3);
    assert_eq!(processed.len(), 1);
    // the click arrives at the time of the click, is routed at once, and a
    // base request takes 2500 / 2 + 4500 time units on a node of the first
    // level
    assert_eq!(seen[0].timestamp, 0);
    assert_eq!(seen[1].timestamp, 0);
    assert_eq!(processed[0].timestamp, 5_750);
    assert_eq!(
        processed[0].kind,
        RequestEventStage::RequestProcessed { node_num: 0, ram_required: Memory::kb(512) }
    );
    assert_eq!(state.base_service.available, Ops(1));
    assert_eq!(state.base_service.total, Ops(1));
    assert_eq!(engine.pending_events(), 0);
    assert_eq!(state.nodes[0].processing, 0);
    assert_eq!(state.nodes[0].ram_usage, state.nodes[0].ram_reserved);
    assert_eq!(state.nodes[0].ram_reserved, Memory::mb(32));
    assert_eq!(state.requests_dropped, 0);
    assert_eq!(state.requests_failed, 0);
}

fn routed(timestamp: u64, amount: u32, node_num: u32) -> RequestEvent {
    RequestEvent::new_arrived(timestamp, None, amount, ServiceKind::Base, false).into_routed(0, node_num)
}

#[test]
fn full_node_queues_a_request_and_starts_it_on_completion() {
    let mut state = WorldState::default();
    let mut engine = GameEngine::with_seed(1);
    let rolls = RoutedRolls { spam: 0, target: 0, cache: 999 };

    // the first request takes the only core
    engine.process_routed(&mut state, routed(10, 1, 0), 0, rolls);
    assert_eq!(state.nodes[0].processing, 1);
    assert_eq!(state.nodes[0].requests.len(), 0);
    assert_eq!(engine.pending_events(), 1);

    // the second one finds the node at full occupancy and waits in it
    engine.process_routed(&mut state, routed(20, 2, 0), 0, rolls);
    assert_eq!(state.nodes[0].processing, 1);
    assert_eq!(state.nodes[0].requests.len(), 1);
    assert_eq!(
        state.nodes[0].requests[0],
        WaitingRequest {
            timestamp: 20,
            amount: 2,
            user_spec_id: None,
            service: ServiceKind::Base,
            mem_required: Memory::kb(1_024),
        }
    );
    assert_eq!(engine.pending_events(), 1);
    assert_eq!(
        state.nodes[0].ram_usage,
        Memory::mb(32) + Memory::kb(512) + Memory::kb(1_024)
    );

    // the first request completes: the queued one is processed next
    let first = engine.pop_due(u64::MAX).unwrap();
    assert_eq!(first.timestamp, 10 + 5_750);
    engine.process_event(&mut state, first.timestamp, first, no_arrival());
    assert_eq!(state.nodes[0].requests.len(), 0);
    assert_eq!(state.nodes[0].processing, 1);
    assert_eq!(state.base_service.total, Ops(1));
    assert_eq!(state.nodes[0].ram_usage, Memory::mb(32) + Memory::kb(1_024));

    let second = engine.pop_due(u64::MAX).unwrap();
    assert_eq!(second.amount, 2);
    assert_eq!(second.timestamp, first.timestamp + 2 * 5_750);
    assert_eq!(
        second.kind,
        RequestEventStage::RequestProcessed { node_num: 0, ram_required: Memory::kb(1_024) }
    );
    engine.process_event(&mut state, second.timestamp, second, no_arrival());
    assert_eq!(state.base_service.total, Ops(3));
    assert_eq!(state.nodes[0].processing, 0);
    assert_eq!(state.nodes[0].ram_usage, Memory::mb(32));
    assert_eq!(engine.pending_events(), 0);
}

fn two_busy_nodes() -> WorldState {
    let mut state = WorldState::default();
    state.nodes.push(CloudNode::new(1));
    state.nodes[0].processing = state.nodes[0].num_cores;
    state.nodes[1].processing = state.nodes[1].num_cores;
    assert!(state.check_sound());
    state
}

#[test]
fn full_routing_queue_drops_the_request() {
    let mut state = two_busy_nodes();
    let mut engine = GameEngine::with_seed(1);
    let arrived = RequestEvent::new_arrived(5, None, 3, ServiceKind::Base, false);
    assert_eq!(
        state.routing_decision(0, 3, 0),
        RoutingDecision::Enqueue
    );
    for _ in 0..ROUTING_QUEUE_CAPACITY {
        engine.process_arrived(&mut state, 5, arrived, 0, no_arrival());
    }
    assert_eq!(engine.waiting_requests(), ROUTING_QUEUE_CAPACITY);
    assert_eq!(state.requests_dropped, 0);
    assert_eq!(
        state.routing_decision(ROUTING_QUEUE_CAPACITY, 3, 0),
        RoutingDecision::Drop
    );

    engine.process_arrived(&mut state, 5, arrived, 0, no_arrival());
    assert_eq!(engine.waiting_requests(), ROUTING_QUEUE_CAPACITY);
    assert_eq!(state.requests_dropped, 3);
    assert_eq!(engine.pending_events(), 0);

    // the same through the entry that lets chance pick the node
    engine.process_event(&mut state, 5, arrived, no_arrival());
    assert_eq!(engine.waiting_requests(), ROUTING_QUEUE_CAPACITY);
    assert_eq!(state.requests_dropped, 6);
}

#[test]
fn waiting_request_is_routed_when_a_core_comes_free() {
    let mut state = two_busy_nodes();
    let mut engine = GameEngine::with_seed(1);
    let arrived = RequestEvent::new_arrived(5, Some(9), 3, ServiceKind::Super, true);
    engine.process_arrived(&mut state, 5, arrived, 0, no_arrival());
    assert_eq!(engine.waiting_requests(), 1);

    // a request completes on the first node, which does the routing
    let done = RequestEvent::new_arrived(40, None, 1, ServiceKind::Base, false)
        .into_routed(0, 0)
        .into_processed(0, 60, Memory::zero());
    engine.process_processed(&mut state, 100, done, 0, Memory::zero());
    assert_eq!(engine.waiting_requests(), 0);
    assert_eq!(state.nodes[0].processing, 1);
    let next = engine.pop_due(u64::MAX).unwrap();
    // routing three requests takes 3 * (256 / 2) time units
    assert_eq!(
        next,
        RequestEvent {
            timestamp: 100 + 384,
            user_spec_id: Some(9),
            amount: 3,
            service: ServiceKind::Super,
            bad: true,
            kind: RequestEventStage::RequestRouted { node_num: 0 },
        }
    );
}

#[test]
fn trial_cohort_stops_and_leaves_when_its_trial_is_over() {
    let mut state = WorldState::default();
    let mut engine = GameEngine::with_seed(1);
    state.user_specs.push(CloudUserSpec {
        id: 1,
        service: ServiceKind::Base,
        trial_time: 50_000,
        bad: false,
    });
    let cohort = state.user_specs[0];
    engine.bootstrap_events_for(&state, &cohort, Arrival { delay: 700, amount: 1 });
    assert_eq!(engine.next_due(700).unwrap().timestamp, 700);
    assert!(engine.next_due(699).is_none());

    // within the trial the cohort schedules its next request
    let first = engine.pop_due(1_000).unwrap();
    engine.process_arrived(&mut state, 1_000, first, 0, Arrival { delay: 60_000, amount: 2 });
    assert_eq!(state.user_specs.len(), 1);
    assert_eq!(engine.pending_events(), 2);
    let routed = engine.pop_due(u64::MAX).unwrap();
    assert_eq!(routed.kind, RequestEventStage::RequestRouted { node_num: 0 });
    let next = engine.pop_due(u64::MAX).unwrap();
    assert_eq!(
        next,
        RequestEvent::new_arrived(60_700, Some(1), 2, ServiceKind::Base, false)
    );

    // at the end of the trial the cohort schedules nothing and is removed
    engine.process_arrived(&mut state, 50_000, next, 0, Arrival { delay: 10, amount: 1 });
    assert_eq!(state.user_specs.len(), 0);
    assert_eq!(engine.pending_events(), 1);
    let routed = engine.pop_due(u64::MAX).unwrap();
    assert_eq!(routed.kind, RequestEventStage::RequestRouted { node_num: 0 });
    assert_eq!(routed.amount, 2);

    // a request of a cohort that is gone schedules nothing either
    engine.process_arrived(&mut state, 60_000, next, 0, Arrival { delay: 10, amount: 1 });
    assert_eq!(engine.pending_events(), 1);
}

#[test]
fn permanent_cohort_goes_on_for_ever() {
    let mut state = WorldState::default();
    let mut engine = GameEngine::with_seed(1);
    state.user_specs.push(CloudUserSpec { id: 4, service: ServiceKind::Base, trial_time: 0, bad: true });
    let event = RequestEvent::new_arrived(1_000_000, Some(4), 5, ServiceKind::Base, true);
    engine.process_arrived(&mut state, 2_000_000, event, 0, Arrival { delay: 30, amount: 7 });
    assert_eq!(state.user_specs.len(), 1);
    let routed = engine.pop_due(u64::MAX).unwrap();
    assert_eq!(routed.timestamp, 1_000_000);
    let next = engine.pop_due(u64::MAX).unwrap();
    // the delay counts for each of the five requests of the event
    assert_eq!(
        next,
        RequestEvent::new_arrived(1_000_150, Some(4), 7, ServiceKind::Base, true)
    );
}

#[test]
fn spam_filter_catches_by_its_roll() {
    let mut state = WorldState::default();
    state.spam_protection = 500;
    let mut engine = GameEngine::with_seed(1);
    let bad = RequestEvent::new_arrived(0, Some(2), 4, ServiceKind::Base, true).into_routed(0, 0);

    // a roll below the protection catches the request: it counts as failed
    engine.process_routed(&mut state, bad, 0, RoutedRolls { spam: 499, target: 0, cache: 0 });
    assert_eq!(state.requests_failed, 4);
    assert_eq!(state.requests_dropped, 0);
    assert_eq!(engine.pending_events(), 0);
    assert_eq!(state.nodes[0].processing, 0);
    assert_eq!(state.nodes[0].ram_usage, Memory::zero());

    // a roll at the protection lets it through
    engine.process_routed(&mut state, bad, 0, RoutedRolls { spam: 500, target: 0, cache: 999 });
    assert_eq!(state.requests_failed, 4);
    assert_eq!(engine.pending_events(), 1);
    assert_eq!(state.nodes[0].processing, 1);

    // a request that is not malicious is never caught
    let good = RequestEvent::new_arrived(0, None, 1, ServiceKind::Base, false).into_routed(0, 0);
    engine.process_routed(&mut state, good, 0, RoutedRolls { spam: 0, target: 0, cache: 999 });
    assert_eq!(state.requests_failed, 4);
    assert_eq!(state.nodes[0].requests.len(), 1);

    // a malicious request that completes earns nothing and counts as failed
    let done = engine.pop_due(u64::MAX).unwrap();
    assert!(done.bad);
    let funds = state.funds;
    engine.process_event(&mut state, done.timestamp, done, no_arrival());
    assert_eq!(state.requests_failed, 8);
    assert_eq!(state.base_service.total, Ops(0));
    assert_eq!(state.funds, funds);
}

#[test]
fn cache_hit_shortens_the_processing() {
    let mut state = WorldState::default();
    state.cache_level = 2;
    state.nodes[0].ram_capacity = Memory::gb(4);
    let mut engine = GameEngine::with_seed(1);
    let event = routed(100, 4, 0);
    // a chance of 500 thousandths: the roll 499 hits
    engine.process_routed(&mut state, event, 0, RoutedRolls { spam: 0, target: 0, cache: 499 });
    let hit = engine.pop_due(u64::MAX).unwrap();
    assert_eq!(hit.timestamp, 100 + 4 * 5_750 / 20);
    // the reserve is the base reserve times sixteen
    assert_eq!(state.nodes[0].ram_reserved, Memory::mb(512));

    state.nodes[0].processing = 0;
    engine.process_routed(&mut state, event, 0, RoutedRolls { spam: 0, target: 0, cache: 500 });
    let miss = engine.pop_due(u64::MAX).unwrap();
    assert_eq!(miss.timestamp, 100 + 4 * 5_750);
}

#[test]
fn request_without_memory_is_dropped() {
    let mut state = WorldState::default();
    let mut engine = GameEngine::with_seed(1);
    // an epic request needs two gigabytes reserved, which the node lacks
    let epic = RequestEvent::new_arrived(0, None, 2, ServiceKind::Epic, false).into_routed(0, 0);
    engine.process_routed(&mut state, epic, 0, RoutedRolls { spam: 0, target: 0, cache: 0 });
    assert_eq!(state.requests_dropped, 2);
    assert_eq!(state.nodes[0].ram_usage, Memory::zero());
    assert_eq!(state.nodes[0].ram_reserved, Memory::zero());
    assert_eq!(engine.pending_events(), 0);

    // 500 base requests need 256 MB besides the 32 MB of the reserve
    let many = routed(0, 500, 0);
    engine.process_routed(&mut state, many, 0, RoutedRolls { spam: 0, target: 0, cache: 0 });
    assert_eq!(state.requests_dropped, 502);
    assert_eq!(state.nodes[0].ram_reserved, Memory::mb(32));
    assert_eq!(state.nodes[0].ram_usage, Memory::mb(32));
    assert_eq!(state.nodes[0].processing, 0);

    let direct = state.nodes[0].take_in(
        Memory::mb(32),
        WaitingRequest {
            timestamp: 0,
            amount: 1,
            user_spec_id: None,
            service: ServiceKind::Base,
            mem_required: Memory::mb(225),
        },
        false,
    );
    assert_eq!(direct, Admission::NoMemory);
    let direct = state.nodes[0].take_in(
        Memory::mb(257),
        WaitingRequest {
            timestamp: 0,
            amount: 1,
            user_spec_id: None,
            service: ServiceKind::Base,
            mem_required: Memory::zero(),
        },
        false,
    );
    assert_eq!(direct, Admission::NoReserve);
}

#[test]
fn stale_node_is_ignored() {
    let mut state = WorldState::default();
    let mut engine = GameEngine::with_seed(1);
    let before = state.clone();
    engine.process_routed(&mut state, routed(0, 1, 5), 5, RoutedRolls { spam: 0, target: 0, cache: 0 });
    let done = routed(0, 1, 5).into_processed(5, 10, Memory::kb(512));
    engine.process_processed(&mut state, 10, done, 5, Memory::kb(512));
    assert_eq!(state, before);
    assert_eq!(engine.pending_events(), 0);
}

#[test]
fn paying_cohort_earns_the_price() {
    let mut state = WorldState::default();
    state.base_service.price = Money::millicents(50);
    state.base_service.entitlement = Money::millicents(5);
    state.user_specs.push(CloudUserSpec { id: 1, service: ServiceKind::Base, trial_time: 0, bad: false });
    state.user_specs.push(CloudUserSpec { id: 2, service: ServiceKind::Base, trial_time: 900, bad: false });
    let paying = RequestEvent::new_arrived(0, Some(1), 10, ServiceKind::Base, false);
    let trial = RequestEvent::new_arrived(0, Some(2), 10, ServiceKind::Base, false);
    let player = RequestEvent::new_arrived(0, None, 10, ServiceKind::Base, false);
    let gone = RequestEvent::new_arrived(0, Some(3), 10, ServiceKind::Base, false);
    let bad = RequestEvent::new_arrived(0, Some(1), 10, ServiceKind::Base, true);
    assert_eq!(state.revenue(100, &paying), Money::millicents(505));
    assert_eq!(state.revenue(100, &trial), Money::millicents(5));
    assert_eq!(state.revenue(900, &trial), Money::millicents(505));
    assert_eq!(state.revenue(100, &player), Money::millicents(5));
    assert_eq!(state.revenue(100, &gone), Money::millicents(5));
    assert_eq!(state.revenue(100, &bad), Money::zero());

    let mut engine = GameEngine::with_seed(1);
    let funds = state.funds;
    state.nodes[0].processing = 1;
    state.nodes[0].ram_usage = Memory::mb(5);
    let done = paying.into_routed(0, 0).into_processed(0, 10, Memory::mb(5));
    engine.process_processed(&mut state, 100, done, 0, Memory::mb(5));
    assert_eq!(state.funds, funds + Money::millicents(505));
    assert_eq!(state.earned, Money::millicents(505));
    assert_eq!(state.base_service.total, Ops(10));
    assert_eq!(state.base_service.available, Ops(10));
    assert_eq!(state.nodes[0].processing, 0);
    assert_eq!(state.nodes[0].ram_usage, Memory::zero());
    // one job consumes a milliWattever
    assert_eq!(state.electricity.consumed, 100);
    assert_eq!(state.electricity.total_consumed, 100);
}

#[test]
fn every_request_ends_dropped_fulfilled_or_failed() {
    let mut state = WorldState::default();
    state.nodes.push(CloudNode::new_fully_upgraded(1));
    state.nodes.push(CloudNode::new_fully_upgraded(2));
    state.routing_level = RoutingLevel::Distributed;
    state.spam_protection = 500;
    state.user_specs.push(CloudUserSpec { id: 1, service: ServiceKind::Base, trial_time: 40_000, bad: false });
    state.user_specs.push(CloudUserSpec { id: 2, service: ServiceKind::Base, trial_time: 40_000, bad: true });
    assert!(state.check_sound());
    let mut engine = GameEngine::with_seed(2024);
    let good = state.user_specs[0];
    let bad = state.user_specs[1];
    engine.bootstrap_events_for(&state, &good, Arrival { delay: 10, amount: 3 });
    engine.bootstrap_events_for(&state, &bad, Arrival { delay: 20, amount: 2 });

    // the cohorts send requests until their trial ends; then the run closes
    let mut arrived: u64 = 0;
    let mut time = 0;
    while time < 400_000 {
        time += 500;
        while let Some(event) = engine.pop_due(time) {
            if event.kind == RequestEventStage::RequestArrived {
                arrived += event.amount as u64;
            }
            engine.process_event(&mut state, time, event, Arrival { delay: 300, amount: 1 });
            assert!(state.check_sound());
            for node in state.nodes.iter() {
                assert!(node.processing <= node.num_cores);
                assert!(node.ram_usage <= node.ram_capacity);
            }
        }
        engine.finish_update(&mut state, time);
    }
    assert!(arrived > 200);
    assert_eq!(state.user_specs.len(), 0);
    assert_eq!(engine.pending_events(), 0);
    assert_eq!(engine.waiting_requests(), 0);
    for node in state.nodes.iter() {
        assert_eq!(node.processing, 0);
        assert_eq!(node.requests.len(), 0);
        assert_eq!(node.ram_usage, node.ram_reserved);
    }
    let fulfilled = state.base_service.total.0 as u64;
    assert!(state.requests_failed > 0);
    assert!(state.requests_dropped > 0);
    assert!(fulfilled > 0);
    assert_eq!(state.requests_dropped + fulfilled + state.requests_failed, arrived);
}

#[test]
fn same_seed_same_game() {
    let mut picks = Vec::new();
    for _ in 0..2 {
        let mut state = WorldState::default();
        for id in 1..6 {
            state.nodes.push(CloudNode::new(id));
        }
        state.routing_level = RoutingLevel::NoRoutingCost;
        let mut engine = GameEngine::with_seed(99);
        let mut seen = Vec::new();
        for _ in 0..50 {
            let target = engine.pick_target(&state);
            assert!(target < 6);
            seen.push(target);
        }
        picks.push(seen);
    }
    assert_eq!(picks[0], picks[1]);
    // chance does pick: not every pick is the same node
    assert!(picks[0].iter().any(|&t| t != picks[0][0]));
}

#[test]
fn distributed_routing_picks_a_node_with_a_core_left() {
    let mut state = WorldState::default();
    for id in 1..5 {
        state.nodes.push(CloudNode::new(id));
    }
    state.routing_level = RoutingLevel::Distributed;
    state.nodes[0].processing = 1;
    state.nodes[2].processing = 1;
    state.nodes[4].processing = 1;
    let mut engine = GameEngine::with_seed(5);
    let mut seen = [0u32; 5];
    for _ in 0..200 {
        let target = engine.pick_target(&state);
        seen[target as usize] += 1;
    }
    assert_eq!(seen[0] + seen[2] + seen[4], 0);
    assert!(seen[1] > 0 && seen[3] > 0);
    assert_eq!(state.count_free_nodes(false), 2);
    assert_eq!(state.nth_free_node(false, 0), 1);
    assert_eq!(state.nth_free_node(false, 1), 3);
    assert_eq!(
        state.routing_decision(0, 2, 3),
        RoutingDecision::Route { node: 3, duration: 256, takes_core: true }
    );

    // with the first node doing the routing, a busy first node drops
    state.routing_level = RoutingLevel::MainNode;
    assert_eq!(state.routing_decision(0, 2, 3), RoutingDecision::Drop);
    state.nodes[0].processing = 0;
    assert_eq!(
        state.routing_decision(0, 2, 3),
        RoutingDecision::Route { node: 0, duration: 256, takes_core: true }
    );
    state.routing_level = RoutingLevel::NoRoutingCost;
    assert_eq!(
        state.routing_decision(0, 2, 3),
        RoutingDecision::Route { node: 3, duration: 0, takes_core: false }
    );
}

#[test]
fn demand_is_bundled_above_the_threshold() {
    assert_eq!(GameEngine::group_demand(0), (0, 1));
    assert_eq!(GameEngine::group_demand(30_000_000), (30_000_000, 1));
    assert_eq!(GameEngine::group_demand(30_000_001), (30_000_001, 1));
    assert_eq!(GameEngine::group_demand(40_000_000), (20_000_000, 2));
    assert_eq!(GameEngine::group_demand(99_000_000), (24_750_000, 4));
    assert_eq!(GameEngine::group_demand(20_000_000_000), (80_000_000, 250));
}
