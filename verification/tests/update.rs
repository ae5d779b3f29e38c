use std::cell::Cell;

use cloud_champion::engine::{Arrival, Diagnostic, GameEngine, Rearm, UpdateOutcome};
use cloud_champion::Memory;
use cloud_champion::queue::RequestEvent;
use cloud_champion::{CloudUserSpec, Ops, PlayerAction, ServiceKind, WorldState};

#[test]
fn update_processes_what_is_due_and_sets_the_clock() {
    let mut state = WorldState::default();
    let mut engine = GameEngine::with_seed(3);
    let catalog = Vec::new();
    engine.apply_action(
        &mut state,
        PlayerAction::OpClick { kind: ServiceKind::Base, amount: 2 },
        &catalog,
    );
    let unasked = |_| -> Arrival { unreachable!("no cohort sends requests") };

    // the click arrives and is routed; its completion is due later
    let outcome = engine.update(&mut state, 500, 100, &unasked);
    assert_eq!(outcome, UpdateOutcome { events: 2, stale: 0, finished: true, save: false });
    assert_eq!(state.time, 500);
    assert_eq!(engine.pending_events(), 1);
    // two base requests take twice the base duration
    let outcome = engine.update(&mut state, 11_499, 100, &unasked);
    assert_eq!(outcome, UpdateOutcome { events: 0, stale: 0, finished: true, save: false });
    assert_eq!(state.base_service.total, Ops(0));
    let outcome = engine.update(&mut state, 11_500, 100, &unasked);
    assert_eq!(outcome, UpdateOutcome { events: 1, stale: 0, finished: true, save: false });
    assert_eq!(state.base_service.total, Ops(2));
    assert_eq!(state.time, 11_500);
    // and no later update raises the total again
    let outcome = engine.update(&mut state, 11_501, 100, &unasked);
    assert_eq!(outcome, UpdateOutcome { events: 0, stale: 0, finished: true, save: false });
    assert_eq!(state.base_service.total, Ops(2));

    // a time before the clock changes nothing
    let before = state.clone();
    let outcome = engine.update(&mut state, 11_000, 100, &unasked);
    assert_eq!(outcome, UpdateOutcome { events: 0, stale: 0, finished: true, save: false });
    assert_eq!(state, before);

    let outcome = engine.update(&mut state, 360_000, 100, &unasked);
    assert_eq!(outcome, UpdateOutcome { events: 0, stale: 0, finished: true, save: true });
}

#[test]
fn update_stops_when_its_budget_is_spent() {
    let mut state = WorldState::default();
    state.base_service.price = cloud_champion::Money::cents(1);
    state.user_specs.push(CloudUserSpec { id: 1, service: ServiceKind::Base, trial_time: 0, bad: false });
    state.user_specs.push(CloudUserSpec { id: 2, service: ServiceKind::Epic, trial_time: 0, bad: true });
    let mut engine = GameEngine::with_seed(3);
    let asked = Cell::new(0);
    let sample = |service: ServiceKind| {
        asked.set(asked.get() + 1);
        match service {
            ServiceKind::Base => Arrival { delay: 100, amount: 1 },
            _ => Arrival { delay: 1_000_000, amount: 4 },
        }
    };
    engine.bootstrap_events(&state, &sample);
    assert_eq!(asked.get(), 2);
    assert_eq!(
        engine.next_due(100),
        Some(RequestEvent::new_arrived(100, Some(1), 1, ServiceKind::Base, false))
    );
    assert_eq!(engine.pending_events(), 2);

    // the cohort sends a request every 100 time units: the first update
    // runs out of budget, and leaves the clock as it is
    let outcome = engine.update(&mut state, 1_000, 7, &sample);
    assert_eq!(outcome, UpdateOutcome { events: 7, stale: 0, finished: false, save: false });
    assert_eq!(state.time, 0);
    let outcome = engine.update(&mut state, 1_000, 1_000, &sample);
    assert!(outcome.finished);
    assert_eq!(state.time, 1_000);
    // ten arrivals, each routed at once
    assert_eq!(outcome.events + 7, 20);
    // the sample is asked for once for each arrival
    assert_eq!(asked.get(), 2 + 10);
    assert!(engine.next_due(1_000).is_none());
    assert_eq!(engine.next_due(1_100).map(|e| e.timestamp), Some(1_100));

    // only the cohorts from the given one on are armed
    let mut late = GameEngine::with_seed(1);
    late.bootstrap_events_from(&state, 1, &sample);
    assert_eq!(late.pending_events(), 1);
    assert_eq!(
        late.next_due(u64::MAX),
        Some(RequestEvent::new_arrived(1_001_000, Some(2), 4, ServiceKind::Epic, true))
    );
    late.bootstrap_events_from(&state, 2, &sample);
    assert_eq!(late.pending_events(), 1);
    let of = |id: Option<u32>| RequestEvent::new_arrived(0, id, 1, ServiceKind::Base, true);
    assert_eq!(
        GameEngine::rearm(&state, 5, &of(Some(2))),
        Rearm::Schedule { service: ServiceKind::Epic, bad: true }
    );
    assert_eq!(GameEngine::rearm(&state, 5, &of(Some(3))), Rearm::Nothing);
    assert_eq!(GameEngine::rearm(&state, 5, &of(None)), Rearm::Nothing);
    state.user_specs[1].trial_time = 5;
    assert_eq!(GameEngine::rearm(&state, 5, &of(Some(2))), Rearm::Retire);
    assert_eq!(
        GameEngine::rearm(&state, 4, &of(Some(2))),
        Rearm::Schedule { service: ServiceKind::Epic, bad: true }
    );
}

#[test]
fn stale_cohorts_and_nodes_are_told() {
    let mut state = WorldState::default();
    state.user_specs.push(CloudUserSpec { id: 1, service: ServiceKind::Base, trial_time: 0, bad: false });
    let mut engine = GameEngine::with_seed(3);
    let arrival = Arrival { delay: 1_000_000, amount: 1 };
    let known = RequestEvent::new_arrived(0, Some(1), 1, ServiceKind::Base, false);
    let gone = RequestEvent::new_arrived(0, Some(8), 1, ServiceKind::Base, false);
    let player = RequestEvent::new_arrived(0, None, 1, ServiceKind::Base, false);
    assert_eq!(GameEngine::diagnose(&state, &known), Diagnostic::Clear);
    assert_eq!(GameEngine::diagnose(&state, &player), Diagnostic::Clear);
    assert_eq!(GameEngine::diagnose(&state, &gone), Diagnostic::UnknownCohort { id: 8 });
    assert_eq!(
        GameEngine::diagnose(&state, &gone.into_routed(0, 0)),
        Diagnostic::Clear
    );
    assert_eq!(
        GameEngine::diagnose(&state, &known.into_routed(0, 1)),
        Diagnostic::UnknownNode { node_num: 1 }
    );
    assert_eq!(
        GameEngine::diagnose(&state, &gone.into_routed(0, 0).into_processed(0, 5, Memory::zero())),
        Diagnostic::UnknownCohort { id: 8 }
    );
    assert_eq!(
        GameEngine::diagnose(&state, &gone.into_routed(0, 0).into_processed(3, 5, Memory::zero())),
        Diagnostic::UnknownNode { node_num: 3 }
    );

    // a request of a cohort that is gone is routed, and nothing follows it
    assert_eq!(
        engine.process_event(&mut state, 0, gone, arrival),
        Diagnostic::UnknownCohort { id: 8 }
    );
    assert_eq!(engine.pending_events(), 1);
    assert_eq!(engine.process_event(&mut state, 0, known, arrival), Diagnostic::Clear);
    assert_eq!(engine.pending_events(), 3);

    // the update counts what was told: the completion of the request of the
    // cohort that is gone
    let outcome = engine.update(&mut state, 100_000, 100, |_| arrival);
    assert!(outcome.finished);
    assert_eq!(outcome.events, 4);
    assert_eq!(outcome.stale, 1);
    assert_eq!(state.base_service.total, cloud_champion::Ops(2));

    // an event for a node that is not there is told and changes nothing
    let before = state.clone();
    let lost = player.into_routed(0, 4);
    assert_eq!(
        engine.process_event(&mut state, 0, lost, arrival),
        Diagnostic::UnknownNode { node_num: 4 }
    );
    assert_eq!(state, before);
    assert_eq!(engine.step(&mut state, 200_000, arrival), None);
}

#[test]
fn every_click_ends_dropped_or_fulfilled_over_the_updates() {
    let mut state = WorldState::default();
    let mut engine = GameEngine::with_seed(5);
    let catalog = Vec::new();
    let unasked = |_| -> Arrival { unreachable!("no cohort sends requests") };
    let clicks = [
        (ServiceKind::Base, 3),
        (ServiceKind::Base, 500),
        (ServiceKind::Epic, 2),
        (ServiceKind::Base, 1),
        (ServiceKind::Base, 7),
    ];
    let mut asked: u64 = 0;
    let mut time = 0;
    for (kind, amount) in clicks {
        engine.apply_action(&mut state, PlayerAction::OpClick { kind, amount }, &catalog);
        asked += amount as u64;
        time += 1_000;
        let outcome = engine.update(&mut state, time, 1_000, &unasked);
        assert!(outcome.finished);
        assert_eq!(outcome.stale, 0);
    }
    // the updates go on until nothing is pending and nothing waits
    while engine.pending_events() > 0 || state.nodes[0].requests.len() > 0 {
        time += 7_300;
        assert!(engine.update(&mut state, time, 2, &unasked).events <= 2);
        assert!(time < 1_000_000);
    }
    assert_eq!(engine.waiting_requests(), 0);
    let fulfilled = state.base_service.total.0 + state.epic_service.total.0;
    assert_eq!(state.requests_failed, 0);
    // 500 base requests and the epic ones find no memory; the others are
    // fulfilled, or given up after they have waited too long
    assert!(state.requests_dropped >= 502);
    assert_eq!(state.requests_dropped + fulfilled as u64, asked);
    assert_eq!(asked, 513);
}
