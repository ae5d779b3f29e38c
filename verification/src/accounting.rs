//! The account of the requests: each request that has been routed is in
//! flight until it ends dropped, fulfilled or failed, and none is lost or
//! counted twice.

use vstd::prelude::*;

use crate::engine::{Arrival, EngineView, RoutedRolls, WaitingRouteRequest};
use crate::engine::arrival::{arrived, next_arrival_event, rearm_of, routed_event, Rearm};
use crate::engine::clock::{major_update, node_swept, swept_amount, TIMEOUT_CLEANUP_PERIOD};
use crate::engine::completion::{
    core_goes_to_routing, processed, rerouted_event, started_count, started_events,
};
use crate::engine::handover::{caught, nodes_after_routing, processed_event, request_of, routed};
use crate::engine::run::{nodes_known, stepped};
use crate::memory::Memory;
use crate::node::{still_waiting, timed_out, timed_out_amount, CloudNode, WaitingRequest};
use crate::queue::{arrival_index, with_event, with_events, RequestEvent, RequestEventStage};
use crate::routing::{routing_of, RoutingDecision};
use crate::service::ServiceKind;
use crate::state::{memory_reserve_required, WorldState};
use crate::Time;

verus! {

/// The sum of the numbers of a sequence.
pub open spec fn sum_of(numbers: Seq<nat>) -> nat
    decreases numbers.len(),
{
    if numbers.len() == 0 {
        0
    } else {
        sum_of(numbers.drop_last()) + numbers.last()
    }
}

/// The sum of two sequences, one after the other, is the sum of their sums.
pub proof fn lemma_sum_of_two(a: Seq<nat>, b: Seq<nat>)
    ensures
        sum_of(a + b) == sum_of(a) + sum_of(b),
    decreases b.len(),
{
    if b.len() == 0 {
        assert(a + b =~= a);
    } else {
        lemma_sum_of_two(a, b.drop_last());
        assert((a + b).drop_last() =~= a + b.drop_last());
    }
}

/// A number that is put into a sequence adds itself to the sum.
pub proof fn lemma_sum_with_one_more(numbers: Seq<nat>, index: int, number: nat)
    requires
        0 <= index <= numbers.len(),
    ensures
        sum_of(numbers.insert(index, number)) == sum_of(numbers) + number,
{
    let front = numbers.take(index);
    let back = numbers.skip(index);
    assert(numbers =~= front + back);
    assert(numbers.insert(index, number) =~= front.push(number) + back);
    lemma_sum_of_two(front, back);
    lemma_sum_of_two(front.push(number), back);
    assert(front.push(number).drop_last() =~= front);
}

/// The sum of a sequence is the sum of its first numbers and the sum of
/// the rest.
pub proof fn lemma_sum_split(numbers: Seq<nat>, count: int)
    requires
        0 <= count <= numbers.len(),
    ensures
        sum_of(numbers) == sum_of(numbers.take(count)) + sum_of(numbers.skip(count)),
{
    assert(numbers =~= numbers.take(count) + numbers.skip(count));
    lemma_sum_of_two(numbers.take(count), numbers.skip(count));
}

/// A number that takes the place of another changes the sum by their
/// difference.
pub proof fn lemma_sum_with_one_changed(numbers: Seq<nat>, index: int, number: nat)
    requires
        0 <= index < numbers.len(),
    ensures
        sum_of(numbers.update(index, number)) == sum_of(numbers) - numbers[index] + number,
{
    let front = numbers.take(index);
    let back = numbers.skip(index + 1);
    assert(numbers =~= front.push(numbers[index]) + back);
    assert(numbers.update(index, number) =~= front.push(number) + back);
    lemma_sum_of_two(front.push(numbers[index]), back);
    lemma_sum_of_two(front.push(number), back);
    assert(front.push(number).drop_last() =~= front);
    assert(front.push(numbers[index]).drop_last() =~= front);
}

/// The sum of one number is that number.
pub proof fn lemma_sum_of_one(number: nat)
    ensures
        sum_of(seq![number]) == number,
{
    assert(seq![number].drop_last() =~= Seq::<nat>::empty());
    assert(sum_of(seq![number].drop_last()) == 0);
}

/// The requests that an event stands for while they are in flight. The
/// requests of an arrival are yet to come: they are not in flight.
pub open spec fn event_weight(event: RequestEvent) -> nat {
    if event.kind is RequestArrived {
        0
    } else {
        event.amount as nat
    }
}

/// The requests in flight among pending events: those that are routed or
/// being processed.
pub open spec fn events_in_flight(events: Seq<RequestEvent>) -> nat {
    sum_of(events.map_values(|event: RequestEvent| event_weight(event)))
}

/// The requests that wait to be routed.
pub open spec fn waiting_in_flight(waiting: Seq<WaitingRouteRequest>) -> nat {
    sum_of(waiting.map_values(|request: WaitingRouteRequest| request.amount as nat))
}

/// The requests that wait in a node.
pub open spec fn requests_in_flight(requests: Seq<WaitingRequest>) -> nat {
    sum_of(requests.map_values(|request: WaitingRequest| request.amount as nat))
}

/// The requests that wait in the nodes.
pub open spec fn nodes_in_flight(nodes: Seq<CloudNode>) -> nat {
    sum_of(nodes.map_values(|node: CloudNode| requests_in_flight(node.requests@)))
}

/// The requests in flight: routed or being processed, waiting to be
/// routed, or waiting in a node.
pub open spec fn in_flight(state: WorldState, engine: EngineView) -> nat {
    events_in_flight(engine.queue) + waiting_in_flight(engine.waiting) + nodes_in_flight(
        state.nodes@,
    )
}

/// The requests that were fulfilled: the operations that the four services
/// have performed.
pub open spec fn fulfilled(state: WorldState) -> int {
    state.base_service.total@ + state.super_service.total@ + state.epic_service.total@
        + state.awesome_service.total@
}

/// The requests that have ended: dropped, fulfilled or failed.
pub open spec fn settled(state: WorldState) -> int {
    state.requests_dropped + state.requests_failed + fulfilled(state)
}

/// The requests that the game accounts for: those in flight and those that
/// have ended.
pub open spec fn accounted(state: WorldState, engine: EngineView) -> int {
    in_flight(state, engine) + settled(state)
}

/// Whether the counts of `state` have room for `amount` more requests, so
/// that none of them is held at its largest value.
pub open spec fn has_room(state: WorldState, amount: int) -> bool {
    &&& state.requests_dropped + amount <= u64::MAX
    &&& state.requests_failed + amount <= u64::MAX
    &&& forall|kind: ServiceKind| (#[trigger] state.service(kind)).total@ + amount <= i64::MAX
}

/// An event that is put among the pending events adds its requests to
/// those in flight.
pub proof fn lemma_event_in_flight(events: Seq<RequestEvent>, event: RequestEvent)
    ensures
        events_in_flight(with_event(events, event)) == events_in_flight(events) + event_weight(
            event,
        ),
{
    crate::queue::lemma_arrival_index_bounds(events, event.timestamp);
    let index = arrival_index(events, event.timestamp);
    let weight = |event: RequestEvent| event_weight(event);
    assert(events.insert(index, event).map_values(weight) =~= events.map_values(weight).insert(
        index,
        event_weight(event),
    ));
    lemma_sum_with_one_more(events.map_values(weight), index, event_weight(event));
}

/// Events that are put among the pending events add their requests to
/// those in flight.
pub proof fn lemma_events_in_flight(events: Seq<RequestEvent>, pushed: Seq<RequestEvent>)
    ensures
        events_in_flight(with_events(events, pushed)) == events_in_flight(events)
            + events_in_flight(pushed),
    decreases pushed.len(),
{
    let weight = |event: RequestEvent| event_weight(event);
    if pushed.len() == 0 {
        assert(pushed.map_values(weight) =~= Seq::<nat>::empty());
    } else {
        lemma_events_in_flight(events, pushed.drop_last());
        lemma_event_in_flight(with_events(events, pushed.drop_last()), pushed.last());
        assert(pushed.map_values(weight).drop_last() =~= pushed.drop_last().map_values(weight));
    }
}

/// The event that is taken out of the pending events takes its requests
/// out of those in flight.
pub proof fn lemma_popped_event(events: Seq<RequestEvent>)
    requires
        events.len() > 0,
    ensures
        events_in_flight(events.skip(1)) + event_weight(events[0]) == events_in_flight(events),
{
    let weight = |event: RequestEvent| event_weight(event);
    let weights = events.map_values(weight);
    lemma_sum_split(weights, 1);
    assert(weights.skip(1) =~= events.skip(1).map_values(weight));
    assert(weights.take(1) =~= seq![event_weight(events[0])]);
    lemma_sum_of_one(event_weight(events[0]));
}

/// Nodes whose waiting requests have not changed hold as many requests as
/// before.
pub proof fn lemma_same_requests_in_nodes(before: Seq<CloudNode>, after: Seq<CloudNode>)
    requires
        before.len() == after.len(),
        forall|i: int| 0 <= i < before.len() ==> before[i].requests@ == after[i].requests@,
    ensures
        nodes_in_flight(after) == nodes_in_flight(before),
{
    let held = |node: CloudNode| requests_in_flight(node.requests@);
    assert(before.map_values(held) =~= after.map_values(held));
}

/// Where the waiting requests of one node have changed, the nodes hold as
/// many requests more as that node does.
pub proof fn lemma_requests_in_one_node(before: Seq<CloudNode>, after: Seq<CloudNode>, index: int)
    requires
        before.len() == after.len(),
        0 <= index < before.len(),
        forall|i: int|
            0 <= i < before.len() && i != index ==> before[i].requests@ == after[i].requests@,
    ensures
        nodes_in_flight(after) - requests_in_flight(after[index].requests@) == nodes_in_flight(
            before,
        ) - requests_in_flight(before[index].requests@),
{
    let held = |node: CloudNode| requests_in_flight(node.requests@);
    assert(after.map_values(held) =~= before.map_values(held).update(
        index,
        requests_in_flight(after[index].requests@),
    ));
    lemma_sum_with_one_changed(
        before.map_values(held),
        index,
        requests_in_flight(after[index].requests@),
    );
}

/// Routing an arrived request brings its requests into the account: they
/// are in flight or dropped.
pub proof fn lemma_arrived_accounts(
    before: WorldState,
    engine: EngineView,
    time: Time,
    event: RequestEvent,
    target: u32,
    arrival: Arrival,
    after: WorldState,
    engine_after: EngineView,
)
    requires
        before.is_sound(),
        target < before.nodes@.len(),
        event.kind is RequestArrived,
        has_room(before, event.amount as int),
        arrived(before, engine, time, event, target, arrival, after, engine_after),
    ensures
        accounted(after, engine_after) == accounted(before, engine) + event.amount,
{
    let routing = routing_of(before, engine.waiting.len() as int, event.amount, target);
    let rearm = rearm_of(before, time, event);
    let routed_queue = match routing {
        RoutingDecision::Route { node, duration, takes_core } => with_event(
            engine.queue,
            routed_event(event, duration, node),
        ),
        _ => engine.queue,
    };
    match routing {
        RoutingDecision::Route { node, duration, takes_core } => {
            lemma_event_in_flight(engine.queue, routed_event(event, duration, node));
            if takes_core {
                assert forall|i: int| 0 <= i < before.nodes@.len() implies before.nodes@[i].requests@
                    == after.nodes@[i].requests@ by {
                    if i != node {
                        assert(after.nodes@[i] == before.nodes@[i]);
                    }
                }
            }
        },
        RoutingDecision::Enqueue => {
            let amount = |request: WaitingRouteRequest| request.amount as nat;
            assert(engine_after.waiting.map_values(amount).drop_last() =~= engine.waiting.map_values(
                amount,
            ));
        },
        RoutingDecision::Drop => {},
    }
    lemma_same_requests_in_nodes(before.nodes@, after.nodes@);
    match rearm {
        Rearm::Schedule { service, bad } => {
            lemma_event_in_flight(routed_queue, next_arrival_event(event, arrival, service, bad));
        },
        _ => {},
    }
    assert(before.service(ServiceKind::Base) == after.service(ServiceKind::Base));
}

/// Handing a routed request to a node keeps its requests in the account:
/// they stay in flight, or they end dropped or failed.
pub proof fn lemma_routed_accounts(
    before: WorldState,
    engine: EngineView,
    event: RequestEvent,
    node_num: u32,
    rolls: RoutedRolls,
    after: WorldState,
    engine_after: EngineView,
)
    requires
        before.is_sound(),
        rolls.target < before.nodes@.len(),
        node_num < before.nodes@.len(),
        has_room(before, event.amount as int),
        routed(before, engine, event, node_num, rolls, after, engine_after),
    ensures
        accounted(after, engine_after) == accounted(before, engine) + event.amount,
{
    let nodes = nodes_after_routing(before, node_num as int);
    assert forall|i: int| 0 <= i < before.nodes@.len() implies before.nodes@[i].requests@
        == nodes[i].requests@ by {}
    lemma_same_requests_in_nodes(before.nodes@, nodes);
    let request = request_of(event);
    let reserve = memory_reserve_required(
        event.service,
        before.cache_level as int,
        before.software_level as int,
    );
    let node = nodes[rolls.target as int];
    let admission = node.admission_of(reserve, request.mem_required@, before.powersaving());
    if caught(before, event, rolls.spam) {
        assert(after.nodes@ == nodes);
    } else {
        lemma_requests_in_one_node(nodes, after.nodes@, rolls.target as int);
        let node_after = after.nodes@[rolls.target as int];
        if admission is Queued {
            let amount = |request: WaitingRequest| request.amount as nat;
            assert(node_after.requests@.map_values(amount).drop_last() =~= node.requests@.map_values(
                amount,
            ));
        }
        if admission is Started {
            let cache_hit = crate::sampling::roll_succeeds(
                rolls.cache,
                crate::state::cache_hit_chances()[before.cache_level as int] as u32,
            );
            let duration = crate::node::processing_duration(
                node.cpu_speed as int,
                event.service,
                before.software_level as int,
                event.amount as int,
                before.powersaving(),
                cache_hit,
            );
            lemma_event_in_flight(
                engine.queue,
                processed_event(event, rolls.target, duration as u32, request.mem_required),
            );
        }
    }
}

/// The requests that are started from the head of a waiting queue are as
/// many as their completion events stand for.
pub proof fn lemma_started_in_flight(state: WorldState, start: Time, node_num: u32, count: int)
    requires
        0 <= node_num < state.nodes@.len(),
        0 <= count <= state.nodes@[node_num as int].requests@.len(),
    ensures
        events_in_flight(started_events(state, start, node_num, count)) + requests_in_flight(
            state.nodes@[node_num as int].requests@.skip(count),
        ) == requests_in_flight(state.nodes@[node_num as int].requests@),
{
    let requests = state.nodes@[node_num as int].requests@;
    let amount = |request: WaitingRequest| request.amount as nat;
    let weight = |event: RequestEvent| event_weight(event);
    let amounts = requests.map_values(amount);
    lemma_sum_split(amounts, count);
    assert(amounts.skip(count) =~= requests.skip(count).map_values(amount));
    assert(amounts.take(count) =~= started_events(state, start, node_num, count).map_values(
        weight,
    ));
}

/// Booking a completed request keeps its requests in the account: they end
/// fulfilled or failed. The requests that get its core stay in flight.
pub proof fn lemma_processed_accounts(
    before: WorldState,
    engine: EngineView,
    time: Time,
    event: RequestEvent,
    node_num: u32,
    ram_required: Memory,
    after: WorldState,
    engine_after: EngineView,
)
    requires
        before.is_sound(),
        node_num < before.nodes@.len(),
        has_room(before, event.amount as int),
        processed(before, engine, time, event, node_num, ram_required, after, engine_after),
    ensures
        accounted(after, engine_after) == accounted(before, engine) + event.amount,
{
    let node = before.nodes@[node_num as int];
    let node_after = after.nodes@[node_num as int];
    lemma_requests_in_one_node(before.nodes@, after.nodes@, node_num as int);
    assert(before.service(event.service).total@ + event.amount <= i64::MAX);
    assert(fulfilled(after) == fulfilled(before) + if event.bad {
        0
    } else {
        event.amount as int
    }) by {
        assert(before.service(ServiceKind::Base) == before.base_service);
        assert(before.service(ServiceKind::Super) == before.super_service);
        assert(before.service(ServiceKind::Epic) == before.epic_service);
        assert(before.service(ServiceKind::Awesome) == before.awesome_service);
    }
    if core_goes_to_routing(before, engine, node_num) {
        let amount = |request: WaitingRouteRequest| request.amount as nat;
        let amounts = engine.waiting.map_values(amount);
        lemma_sum_split(amounts, 1);
        assert(amounts.skip(1) =~= engine.waiting.skip(1).map_values(amount));
        assert(amounts.take(1) =~= seq![engine.waiting[0].amount as nat]);
        lemma_sum_of_one(engine.waiting[0].amount as nat);
        lemma_event_in_flight(
            engine.queue,
            rerouted_event(before, event.timestamp, node_num, engine.waiting[0]),
        );
    } else {
        let started = started_count(node, before.powersaving());
        lemma_events_in_flight(
            engine.queue,
            started_events(before, event.timestamp, node_num, started),
        );
        lemma_started_in_flight(before, event.timestamp, node_num, started);
    }
}

/// The requests that a node gives up at a sweep are those that leave its
/// waiting queue.
pub proof fn lemma_swept_requests(requests: Seq<WaitingRequest>, time: Time)
    ensures
        requests_in_flight(still_waiting(requests, time)) + timed_out_amount(requests, time)
            == requests_in_flight(requests),
    decreases requests.len(),
{
    reveal(Seq::filter);
    let amount = |request: WaitingRequest| request.amount as nat;
    if requests.len() == 0 {
        assert(still_waiting(requests, time) =~= requests);
    } else {
        let front = requests.drop_last();
        lemma_swept_requests(front, time);
        assert(requests.map_values(amount).drop_last() =~= front.map_values(amount));
        if !timed_out(requests.last().timestamp, time) {
            let kept = still_waiting(requests, time);
            assert(kept =~= still_waiting(front, time).push(requests.last()));
            assert(kept.map_values(amount).drop_last() =~= still_waiting(front, time).map_values(
                amount,
            ));
        }
    }
}

/// The requests that the nodes give up at a sweep are those that leave
/// their waiting queues.
pub proof fn lemma_swept_nodes(before: Seq<CloudNode>, after: Seq<CloudNode>, time: Time)
    requires
        before.len() == after.len(),
        forall|i: int| 0 <= i < before.len() ==> node_swept(before[i], #[trigger] after[i], time),
    ensures
        nodes_in_flight(after) + swept_amount(before, time) == nodes_in_flight(before),
    decreases before.len(),
{
    let held = |node: CloudNode| requests_in_flight(node.requests@);
    if before.len() > 0 {
        let front_before = before.drop_last();
        let front_after = after.drop_last();
        assert forall|i: int| 0 <= i < front_before.len() implies node_swept(
            front_before[i],
            #[trigger] front_after[i],
            time,
        ) by {
            assert(node_swept(before[i], after[i], time));
        }
        lemma_swept_nodes(front_before, front_after, time);
        assert(node_swept(before.last(), after[after.len() - 1], time));
        lemma_swept_requests(before.last().requests@, time);
        assert(before.map_values(held).drop_last() =~= front_before.map_values(held));
        assert(after.map_values(held).drop_last() =~= front_after.map_values(held));
    }
}

/// A major update loses no request: what the nodes give up counts as
/// dropped.
pub proof fn lemma_major_update_accounts(
    before: WorldState,
    engine: EngineView,
    time: Time,
    after: WorldState,
    engine_after: EngineView,
)
    requires
        before.is_sound(),
        before.requests_dropped + swept_amount(before.nodes@, time) <= u64::MAX,
        major_update(before, engine, time, after, engine_after),
    ensures
        accounted(after, engine_after) == accounted(before, engine),
{
    if crate::engine::clock::crossed(before.time, time, TIMEOUT_CLEANUP_PERIOD) {
        lemma_swept_nodes(before.nodes@, after.nodes@, time);
    }
}

/// Every request ends dropped, fulfilled or failed: a step of the game
/// changes the account of the requests only by the requests that arrive
/// with it. So in a run that starts and ends with no request in flight, as
/// many requests are dropped, fulfilled or failed as have arrived.
pub proof fn lemma_step_accounts(
    before: WorldState,
    engine: EngineView,
    time: Time,
    arrival: Arrival,
    after: WorldState,
    engine_after: EngineView,
)
    requires
        before.is_sound(),
        nodes_known(before, engine),
        stepped(before, engine, time, arrival, after, engine_after),
        has_room(before, engine.queue[0].amount as int),
    ensures
        accounted(after, engine_after) == accounted(before, engine) + if engine.queue[0].kind
            is RequestArrived {
            engine.queue[0].amount as int
        } else {
            0
        },
        in_flight(after, engine_after) == 0 ==> settled(after) == accounted(after, engine_after),
{
    let event = engine.queue[0];
    let popped = EngineView { queue: engine.queue.skip(1), ..engine };
    lemma_popped_event(engine.queue);
    match event.kind {
        RequestEventStage::RequestArrived => {
            let target = choose|target: u32|
                target < before.nodes@.len() && #[trigger] arrived(
                    before,
                    popped,
                    time,
                    event,
                    target,
                    arrival,
                    after,
                    engine_after,
                );
            lemma_arrived_accounts(before, popped, time, event, target, arrival, after, engine_after);
        },
        RequestEventStage::RequestRouted { node_num } => {
            let rolls = choose|rolls: RoutedRolls|
                rolls.target < before.nodes@.len() && #[trigger] routed(
                    before,
                    popped,
                    event,
                    node_num,
                    rolls,
                    after,
                    engine_after,
                );
            lemma_routed_accounts(before, popped, event, node_num, rolls, after, engine_after);
        },
        RequestEventStage::RequestProcessed { node_num, ram_required } => {
            lemma_processed_accounts(
                before,
                popped,
                time,
                event,
                node_num,
                ram_required,
                after,
                engine_after,
            );
        },
    }
}

/// The requests that arrive with the step that is made from a state: those
/// of the next event, where it is an arrival.
pub open spec fn arriving(engine: EngineView) -> int {
    if engine.queue.len() > 0 && engine.queue[0].kind is RequestArrived {
        engine.queue[0].amount as int
    } else {
        0
    }
}

/// The requests that arrive in the course of a run: with a step from any of
/// its states but the last.
pub open spec fn arrived_in(run: Seq<(WorldState, EngineView)>) -> int
    decreases run.len(),
{
    if run.len() <= 1 {
        0
    } else {
        arrived_in(run.drop_last()) + arriving(run[run.len() - 2].1)
    }
}

/// Whether each state of a run comes of the one before it by a step of the
/// game, made from a sound state in which every pending event names nodes
/// that exist and the counts have room for the requests of the next event.
pub open spec fn is_run(
    run: Seq<(WorldState, EngineView)>,
    times: Seq<Time>,
    arrivals: Seq<Arrival>,
) -> bool {
    &&& run.len() >= 1
    &&& times.len() == run.len() - 1
    &&& arrivals.len() == run.len() - 1
    &&& forall|i: int|
        0 <= i < run.len() - 1 ==> {
            &&& (#[trigger] run[i]).0.is_sound()
            &&& nodes_known(run[i].0, run[i].1)
            &&& has_room(run[i].0, run[i].1.queue[0].amount as int)
            &&& stepped(run[i].0, run[i].1, times[i], arrivals[i], run[i + 1].0, run[i + 1].1)
        }
}

/// In a run of the game, the requests that are accounted for at the end
/// are those that were accounted for at the start and those that have
/// arrived. So over a run that starts and ends with no request in flight,
/// as many requests were dropped, fulfilled or failed as have arrived.
pub proof fn lemma_run_accounts(
    run: Seq<(WorldState, EngineView)>,
    times: Seq<Time>,
    arrivals: Seq<Arrival>,
)
    requires
        is_run(run, times, arrivals),
    ensures
        accounted(run.last().0, run.last().1) == accounted(run[0].0, run[0].1) + arrived_in(run),
        in_flight(run[0].0, run[0].1) == 0 && in_flight(run.last().0, run.last().1) == 0
            ==> settled(run.last().0) - settled(run[0].0) == arrived_in(run),
    decreases run.len(),
{
    if run.len() > 1 {
        let front = run.drop_last();
        assert(is_run(front, times.drop_last(), arrivals.drop_last())) by {
            assert forall|i: int| 0 <= i < front.len() - 1 implies {
                &&& (#[trigger] front[i]).0.is_sound()
                &&& nodes_known(front[i].0, front[i].1)
                &&& has_room(front[i].0, front[i].1.queue[0].amount as int)
                &&& stepped(
                    front[i].0,
                    front[i].1,
                    times.drop_last()[i],
                    arrivals.drop_last()[i],
                    front[i + 1].0,
                    front[i + 1].1,
                )
            } by {
                assert(front[i] == run[i] && front[i + 1] == run[i + 1]);
                assert(run[i].0.is_sound());
            }
        }
        lemma_run_accounts(front, times.drop_last(), arrivals.drop_last());
        let last = run.len() - 2;
        assert(run[last].0.is_sound());
        assert(front.last() == run[last]);
        lemma_step_accounts(
            run[last].0,
            run[last].1,
            times[last],
            arrivals[last],
            run[last + 1].0,
            run[last + 1].1,
        );
    }
}

} // verus!
