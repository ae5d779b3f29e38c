//! The account of the requests over updates of a game that no cohort
//! feeds: every request that was asked for ends dropped, fulfilled or
//! failed, and until then it is outstanding.

use vstd::prelude::*;

use crate::accounting::{
    accounted, in_flight, lemma_major_update_accounts, lemma_popped_event, lemma_step_accounts,
    lemma_sum_of_one, lemma_sum_split, lemma_sum_with_one_more, lemma_swept_requests,
    nodes_in_flight, requests_in_flight, settled, sum_of,
};
use crate::action::PlayerAction;
use crate::cards::CardSpec;
use crate::engine::{Arrival, EngineView, RoutedRolls};
use crate::engine::actions::action_applied;
use crate::engine::arrival::{arrived, routed_event};
use crate::engine::clock::{clock_set, crossed, major_update, swept_amount, MAJOR_UPDATE_PERIOD};
use crate::engine::completion::{
    core_goes_to_routing, rerouted_event, started_count, started_events,
};
use crate::engine::handover::{nodes_after_routing, processed_event, request_of, routed};
use crate::engine::run::{
    lemma_step_keeps_nodes_known, nodes_known, stepped, stepped_times, updated, UpdateOutcome,
};
use crate::node::{processing_duration, CloudNode};
use crate::purchase::ActionOutcome;
use crate::queue::{
    arrival_index, lemma_arrival_index_bounds, with_event, with_events, RequestEvent,
    RequestEventStage,
};
use crate::routing::{routing_of, RoutingDecision};
use crate::sampling::{roll_succeeds, Chance};
use crate::service::ServiceKind;
use crate::state::{cache_hit_chances, WorldState};
use crate::Time;

verus! {

/// The requests of an event that are yet to come: those of an arrival.
pub open spec fn arrival_weight(event: RequestEvent) -> nat {
    if event.kind is RequestArrived {
        event.amount as nat
    } else {
        0
    }
}

/// The requests that are asked for and have not arrived yet: those of the
/// pending arrivals.
pub open spec fn arrivals_pending(events: Seq<RequestEvent>) -> nat {
    sum_of(events.map_values(|event: RequestEvent| arrival_weight(event)))
}

/// The requests that have not ended yet: those that are yet to arrive and
/// those in flight.
pub open spec fn outstanding(state: WorldState, engine: EngineView) -> nat {
    arrivals_pending(engine.queue) + in_flight(state, engine)
}

/// All the requests of a game: those that are outstanding and those that
/// have ended dropped, fulfilled or failed.
pub open spec fn owed(state: WorldState, engine: EngineView) -> int {
    outstanding(state, engine) + settled(state)
}

/// Whether no cohort feeds the game: requests come from the player alone.
pub open spec fn is_closed(state: WorldState) -> bool {
    state.user_specs@.len() == 0
}

/// Whether the counts of `state` have room for every request that is
/// outstanding, so that none of them will be held at its largest value.
pub open spec fn has_room_for_all(state: WorldState, engine: EngineView) -> bool {
    &&& state.requests_dropped + outstanding(state, engine) <= u64::MAX
    &&& state.requests_failed + outstanding(state, engine) <= u64::MAX
    &&& forall|kind: ServiceKind|
        (#[trigger] state.service(kind)).total@ + outstanding(state, engine) <= i64::MAX
}

/// Whether no count of `after` is below that count of `before`.
pub open spec fn counts_kept(before: WorldState, after: WorldState) -> bool {
    &&& before.requests_dropped <= after.requests_dropped
    &&& before.requests_failed <= after.requests_failed
    &&& before.base_service.total@ <= after.base_service.total@
    &&& before.super_service.total@ <= after.super_service.total@
    &&& before.epic_service.total@ <= after.epic_service.total@
    &&& before.awesome_service.total@ <= after.awesome_service.total@
}

/// An event that is put among the pending events adds the requests of an
/// arrival to those that are yet to come.
pub proof fn lemma_arrival_pushed(events: Seq<RequestEvent>, event: RequestEvent)
    ensures
        arrivals_pending(with_event(events, event)) == arrivals_pending(events) + arrival_weight(
            event,
        ),
{
    lemma_arrival_index_bounds(events, event.timestamp);
    let index = arrival_index(events, event.timestamp);
    let weight = |event: RequestEvent| arrival_weight(event);
    assert(events.insert(index, event).map_values(weight) =~= events.map_values(weight).insert(
        index,
        arrival_weight(event),
    ));
    lemma_sum_with_one_more(events.map_values(weight), index, arrival_weight(event));
}

/// Events that are no arrivals leave the requests that are yet to come as
/// they are.
pub proof fn lemma_no_arrival_pushed(events: Seq<RequestEvent>, pushed: Seq<RequestEvent>)
    requires
        forall|i: int| 0 <= i < pushed.len() ==> !((#[trigger] pushed[i]).kind is RequestArrived),
    ensures
        arrivals_pending(with_events(events, pushed)) == arrivals_pending(events),
    decreases pushed.len(),
{
    if pushed.len() > 0 {
        let front = pushed.drop_last();
        assert forall|i: int| 0 <= i < front.len() implies !((#[trigger] front[i]).kind
            is RequestArrived) by {
            assert(front[i] == pushed[i]);
        }
        lemma_no_arrival_pushed(events, front);
        assert(!(pushed[pushed.len() - 1].kind is RequestArrived));
        lemma_arrival_pushed(with_events(events, front), pushed.last());
    }
}

/// The event that is taken out of the pending events takes the requests of
/// an arrival out of those that are yet to come.
pub proof fn lemma_arrival_popped(events: Seq<RequestEvent>)
    requires
        events.len() > 0,
    ensures
        arrivals_pending(events.skip(1)) + arrival_weight(events[0]) == arrivals_pending(events),
{
    let weight = |event: RequestEvent| arrival_weight(event);
    let weights = events.map_values(weight);
    lemma_sum_split(weights, 1);
    assert(weights.skip(1) =~= events.skip(1).map_values(weight));
    assert(weights.take(1) =~= seq![arrival_weight(events[0])]);
    lemma_sum_of_one(arrival_weight(events[0]));
}

/// A step of a game that no cohort feeds changes nothing of what the game
/// owes: the requests of its event go from where they were to where the
/// step takes them, and no request is added.
pub proof fn lemma_closed_step(
    before: WorldState,
    engine: EngineView,
    time: Time,
    arrival: Arrival,
    after: WorldState,
    engine_after: EngineView,
)
    requires
        before.is_sound(),
        is_closed(before),
        nodes_known(before, engine),
        has_room_for_all(before, engine),
        stepped(before, engine, time, arrival, after, engine_after),
    ensures
        owed(after, engine_after) == owed(before, engine),
        is_closed(after),
        nodes_known(after, engine_after),
        has_room_for_all(after, engine_after),
        counts_kept(before, after),
{
    let event = engine.queue[0];
    let popped = EngineView { queue: engine.queue.skip(1), ..engine };
    let count = before.nodes@.len();
    lemma_popped_event(engine.queue);
    lemma_arrival_popped(engine.queue);
    assert(event.amount <= outstanding(before, engine));
    assert(before.service(ServiceKind::Base) == before.base_service);
    assert(before.service(ServiceKind::Super) == before.super_service);
    assert(before.service(ServiceKind::Epic) == before.epic_service);
    assert(before.service(ServiceKind::Awesome) == before.awesome_service);
    lemma_step_accounts(before, engine, time, arrival, after, engine_after);
    lemma_step_keeps_nodes_known(before, engine, time, arrival, after, engine_after);
    match event.kind {
        RequestEventStage::RequestArrived => {
            let target = choose|target: u32|
                target < before.nodes@.len() && #[trigger] arrived(
                    before,
                    popped,
                    time,
                    event,
                    target,
                    arrival,
                    after,
                    engine_after,
                );
            match routing_of(before, popped.waiting.len() as int, event.amount, target) {
                RoutingDecision::Route { node, duration, takes_core } => {
                    lemma_arrival_pushed(popped.queue, routed_event(event, duration, node));
                },
                _ => {},
            }
        },
        RequestEventStage::RequestRouted { node_num } => {
            let rolls = choose|rolls: RoutedRolls|
                rolls.target < before.nodes@.len() && #[trigger] routed(
                    before,
                    popped,
                    event,
                    node_num,
                    rolls,
                    after,
                    engine_after,
                );
            let nodes = nodes_after_routing(before, node_num as int);
            let node = nodes[rolls.target as int];
            let cache_hit = roll_succeeds(
                rolls.cache,
                cache_hit_chances()[before.cache_level as int] as u32,
            );
            let duration = processing_duration(
                node.cpu_speed as int,
                event.service,
                before.software_level as int,
                event.amount as int,
                before.powersaving(),
                cache_hit,
            );
            lemma_arrival_pushed(
                popped.queue,
                processed_event(event, rolls.target, duration as u32, request_of(event).mem_required),
            );
        },
        RequestEventStage::RequestProcessed { node_num, ram_required } => {
            if core_goes_to_routing(before, popped, node_num) {
                lemma_arrival_pushed(
                    popped.queue,
                    rerouted_event(before, event.timestamp, node_num, popped.waiting[0]),
                );
            } else {
                let started = started_count(before.nodes@[node_num as int], before.powersaving());
                lemma_no_arrival_pushed(
                    popped.queue,
                    started_events(before, event.timestamp, node_num, started),
                );
            }
        },
    }
    assert(arrivals_pending(engine_after.queue) + arrival_weight(event) == arrivals_pending(
        engine.queue,
    ));
    assert(counts_kept(before, after));
    assert(forall|kind: ServiceKind|
        (#[trigger] after.service(kind)).total@ - before.service(kind).total@ <= settled(after)
            - settled(before));
}

/// Steps of a game that no cohort feeds change nothing of what the game
/// owes.
pub proof fn lemma_closed_steps(
    sampled: spec_fn(ServiceKind, Arrival) -> bool,
    before: WorldState,
    engine: EngineView,
    chance: Chance,
    time: Time,
    steps: nat,
    told: nat,
    after: WorldState,
    engine_after: EngineView,
    chance_after: Chance,
)
    requires
        before.is_sound(),
        is_closed(before),
        nodes_known(before, engine),
        has_room_for_all(before, engine),
        stepped_times(
            sampled,
            before,
            engine,
            chance,
            time,
            steps,
            told,
            after,
            engine_after,
            chance_after,
        ),
    ensures
        owed(after, engine_after) == owed(before, engine),
        is_closed(after),
        nodes_known(after, engine_after),
        has_room_for_all(after, engine_after),
        counts_kept(before, after),
    decreases steps,
{
    if steps > 0 {
        let (mid, engine_mid, chance_mid, step_arrival) = choose|
            mid: WorldState,
            engine_mid: EngineView,
            chance_mid: Chance,
            arrival: Arrival,
        |
            stepped_times(
                sampled,
                before,
                engine,
                chance,
                time,
                (steps - 1) as nat,
                (told - crate::engine::run::telling(mid, engine_mid)) as nat,
                mid,
                engine_mid,
                chance_mid,
            ) && mid.is_sound() && told >= crate::engine::run::telling(mid, engine_mid)
                && crate::engine::run::has_due(engine_mid, time)
                && crate::engine::run::arrival_allowed(sampled, mid, engine_mid, time, arrival)
                && stepped(mid, engine_mid, time, arrival, after, engine_after)
                && #[trigger] crate::engine::run::step_decided(
                mid,
                engine_mid,
                chance_mid,
                time,
                arrival,
                after,
                engine_after,
                chance_after,
            );
        lemma_closed_steps(
            sampled,
            before,
            engine,
            chance,
            time,
            (steps - 1) as nat,
            (told - crate::engine::run::telling(mid, engine_mid)) as nat,
            mid,
            engine_mid,
            chance_mid,
        );
        lemma_closed_step(mid, engine_mid, time, step_arrival, after, engine_after);
    }
}

/// The requests that the nodes would give up at a sweep are among those
/// that wait in them.
pub proof fn lemma_swept_within(nodes: Seq<CloudNode>, time: Time)
    ensures
        swept_amount(nodes, time) <= nodes_in_flight(nodes),
    decreases nodes.len(),
{
    let held = |node: CloudNode| requests_in_flight(node.requests@);
    if nodes.len() > 0 {
        lemma_swept_within(nodes.drop_last(), time);
        lemma_swept_requests(nodes.last().requests@, time);
        assert(nodes.map_values(held).drop_last() =~= nodes.drop_last().map_values(held));
    }
}

/// A major update changes nothing of what the game owes: the requests that
/// the nodes give up count as dropped.
pub proof fn lemma_major_update_owes(
    before: WorldState,
    engine: EngineView,
    time: Time,
    after: WorldState,
    engine_after: EngineView,
)
    requires
        before.is_sound(),
        has_room_for_all(before, engine),
        major_update(before, engine, time, after, engine_after),
    ensures
        accounted(after, engine_after) == accounted(before, engine),
        engine_after.queue == engine.queue,
        after.nodes@.len() == before.nodes@.len(),
        after.user_specs@ == before.user_specs@,
        after.requests_failed == before.requests_failed,
        before.requests_dropped <= after.requests_dropped,
        after.base_service == before.base_service,
        after.super_service == before.super_service,
        after.epic_service == before.epic_service,
        after.awesome_service == before.awesome_service,
{
    lemma_swept_within(before.nodes@, time);
    lemma_major_update_accounts(before, engine, time, after, engine_after);
}

/// Setting the clock changes nothing of what the game owes.
pub proof fn lemma_clock_accounts(
    before: WorldState,
    engine: EngineView,
    time: Time,
    after: WorldState,
    engine_after: EngineView,
    save: bool,
)
    requires
        before.is_sound(),
        is_closed(before),
        nodes_known(before, engine),
        has_room_for_all(before, engine),
        clock_set(before, engine, time, after, engine_after, save),
    ensures
        owed(after, engine_after) == owed(before, engine),
        is_closed(after),
        nodes_known(after, engine_after),
        has_room_for_all(after, engine_after),
        counts_kept(before, after),
{
    if time >= before.time && crossed(before.time, time, MAJOR_UPDATE_PERIOD) {
        let updated_state = WorldState { time: before.time, ..after };
        lemma_major_update_owes(before, engine, time, updated_state, engine_after);
        assert(accounted(after, engine_after) == accounted(updated_state, engine_after));
        assert(settled(after) == settled(updated_state));
        assert(forall|kind: ServiceKind| (#[trigger] after.service(kind)) == before.service(kind));
    } else {
        assert(forall|kind: ServiceKind| (#[trigger] after.service(kind)) == before.service(kind));
    }
}

/// An update of a game that no cohort feeds changes nothing of what the
/// game owes: every request that was outstanding before is outstanding
/// after, or has ended dropped, fulfilled or failed. So once nothing is
/// outstanding any more, the requests that have ended since are those that
/// were outstanding.
///
/// The update leaves the game as this asks of it, so that the same holds
/// of the next update.
pub proof fn lemma_update_accounts(
    sampled: spec_fn(ServiceKind, Arrival) -> bool,
    before: WorldState,
    engine: EngineView,
    chance: Chance,
    time: Time,
    budget: u32,
    outcome: UpdateOutcome,
    after: WorldState,
    engine_after: EngineView,
    chance_after: Chance,
)
    requires
        before.is_sound(),
        is_closed(before),
        nodes_known(before, engine),
        has_room_for_all(before, engine),
        updated(
            sampled,
            before,
            engine,
            chance,
            time,
            budget,
            outcome,
            after,
            engine_after,
            chance_after,
        ),
    ensures
        owed(after, engine_after) == owed(before, engine),
        is_closed(after),
        nodes_known(after, engine_after),
        has_room_for_all(after, engine_after),
        counts_kept(before, after),
        outstanding(after, engine_after) == 0 ==> settled(after) - settled(before) == outstanding(
            before,
            engine,
        ),
{
    let (mid, engine_mid) = choose|mid: WorldState, engine_mid: EngineView| #[trigger]
        stepped_times(
            sampled,
            before,
            engine,
            chance,
            time,
            outcome.events as nat,
            outcome.stale as nat,
            mid,
            engine_mid,
            chance_after,
        ) && {
            &&& outcome.events <= budget
            &&& outcome.finished == !crate::engine::run::has_due(engine_mid, time)
            &&& if outcome.finished {
                clock_set(mid, engine_mid, time, after, engine_after, outcome.save)
            } else {
                &&& outcome.events == budget
                &&& !outcome.save
                &&& after == mid
                &&& engine_after == engine_mid
            }
        };
    lemma_closed_steps(
        sampled,
        before,
        engine,
        chance,
        time,
        outcome.events as nat,
        outcome.stale as nat,
        mid,
        engine_mid,
        chance_after,
    );
    if outcome.finished {
        lemma_clock_accounts(mid, engine_mid, time, after, engine_after, outcome.save);
    }
}

/// Whether each state of `run` comes of the one before it by an update, made
/// from a sound state at the time, with the budget and with the outcome
/// that stand at its place.
pub open spec fn is_run_of_updates(
    sampled: spec_fn(ServiceKind, Arrival) -> bool,
    run: Seq<(WorldState, EngineView, Chance)>,
    times: Seq<Time>,
    budgets: Seq<u32>,
    outcomes: Seq<UpdateOutcome>,
) -> bool {
    &&& run.len() >= 1
    &&& times.len() == run.len() - 1
    &&& budgets.len() == run.len() - 1
    &&& outcomes.len() == run.len() - 1
    &&& forall|i: int|
        0 <= i < run.len() - 1 ==> (#[trigger] run[i]).0.is_sound() && updated(
            sampled,
            run[i].0,
            run[i].1,
            run[i].2,
            times[i],
            budgets[i],
            outcomes[i],
            run[i + 1].0,
            run[i + 1].1,
            run[i + 1].2,
        )
}

/// Drop accounting over the updates of a closed run: in a game that no
/// cohort feeds, whatever the times and the budgets of the updates, the
/// game owes at the end what it owed at the start. So once the pending
/// events, the waiting queue and the nodes hold no request any more, as
/// many requests have ended dropped, fulfilled or failed as were
/// outstanding at the start.
pub proof fn lemma_updates_account(
    sampled: spec_fn(ServiceKind, Arrival) -> bool,
    run: Seq<(WorldState, EngineView, Chance)>,
    times: Seq<Time>,
    budgets: Seq<u32>,
    outcomes: Seq<UpdateOutcome>,
)
    requires
        is_run_of_updates(sampled, run, times, budgets, outcomes),
        is_closed(run[0].0),
        nodes_known(run[0].0, run[0].1),
        has_room_for_all(run[0].0, run[0].1),
    ensures
        owed(run.last().0, run.last().1) == owed(run[0].0, run[0].1),
        is_closed(run.last().0),
        nodes_known(run.last().0, run.last().1),
        has_room_for_all(run.last().0, run.last().1),
        counts_kept(run[0].0, run.last().0),
        outstanding(run.last().0, run.last().1) == 0 ==> settled(run.last().0) - settled(run[0].0)
            == outstanding(run[0].0, run[0].1),
    decreases run.len(),
{
    if run.len() > 1 {
        let front = run.drop_last();
        assert(is_run_of_updates(
            sampled,
            front,
            times.drop_last(),
            budgets.drop_last(),
            outcomes.drop_last(),
        )) by {
            assert forall|i: int| 0 <= i < front.len() - 1 implies (#[trigger] front[i]).0.is_sound()
                && updated(
                sampled,
                front[i].0,
                front[i].1,
                front[i].2,
                times.drop_last()[i],
                budgets.drop_last()[i],
                outcomes.drop_last()[i],
                front[i + 1].0,
                front[i + 1].1,
                front[i + 1].2,
            ) by {
                assert(front[i] == run[i] && front[i + 1] == run[i + 1]);
                assert(run[i].0.is_sound());
            }
        }
        lemma_updates_account(
            sampled,
            front,
            times.drop_last(),
            budgets.drop_last(),
            outcomes.drop_last(),
        );
        let last = run.len() - 2;
        assert(run[last].0.is_sound());
        assert(front.last() == run[last]);
        lemma_update_accounts(
            sampled,
            run[last].0,
            run[last].1,
            run[last].2,
            times[last],
            budgets[last],
            outcomes[last],
            run[last + 1].0,
            run[last + 1].1,
            run[last + 1].2,
        );
    }
}

/// A click of the player adds the operations that it asks for to what the
/// game owes, and nothing else of the account changes.
pub proof fn lemma_click_accounts(
    before: WorldState,
    engine: EngineView,
    kind: ServiceKind,
    amount: u32,
    catalog: Seq<CardSpec>,
    outcome: ActionOutcome,
    after: WorldState,
    engine_after: EngineView,
)
    requires
        nodes_known(before, engine),
        action_applied(
            before,
            engine,
            PlayerAction::OpClick { kind, amount },
            catalog,
            outcome,
            after,
            engine_after,
        ),
    ensures
        owed(after, engine_after) == owed(before, engine) + amount,
        outstanding(after, engine_after) == outstanding(before, engine) + amount,
        after == before,
        nodes_known(after, engine_after),
{
    let event = crate::engine::actions::click_event(before, kind, amount);
    lemma_arrival_pushed(engine.queue, event);
    crate::accounting::lemma_event_in_flight(engine.queue, event);
    crate::engine::run::lemma_push_keeps_nodes_known(
        engine.queue,
        event,
        before.nodes@.len() as int,
    );
}

} // verus!
