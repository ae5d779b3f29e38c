//! The bounds that the load of a node keeps: the requests in flight against
//! the cores, and the memory in use against the capacity.

use vstd::prelude::*;

use crate::engine::{Arrival, EngineView, RoutedRolls};
use crate::engine::arrival::arrived;
use crate::engine::completion::processed;
use crate::engine::handover::{nodes_after_routing, routed};
use crate::memory::Memory;
use crate::queue::RequestEvent;
use crate::routing::{routing_of, RoutingDecision};
use crate::state::WorldState;
use crate::Time;

verus! {

/// Whether no node runs more requests than it may use cores: all of its
/// cores, or a quarter of them while power is being saved.
pub open spec fn cores_respected(state: WorldState) -> bool {
    forall|i: int|
        0 <= i < state.nodes@.len() ==> (#[trigger] state.nodes@[i]).processing
            <= state.nodes@[i].effective_cores(state.powersaving())
}

/// Whether the memory that each node uses is within its capacity, and holds
/// what the node has reserved.
pub open spec fn memory_respected(state: WorldState) -> bool {
    forall|i: int|
        0 <= i < state.nodes@.len() ==> 0 <= (#[trigger] state.nodes@[i]).ram_reserved@
            <= state.nodes@[i].ram_usage@ <= state.nodes@[i].ram_capacity@
}

/// A sound state keeps the memory of every node within its capacity, and
/// the requests in flight within the cores of the node.
pub proof fn lemma_sound_state_respects_capacity(state: WorldState)
    requires
        state.is_sound(),
    ensures
        memory_respected(state),
        forall|i: int|
            0 <= i < state.nodes@.len() ==> (#[trigger] state.nodes@[i]).processing
                <= state.nodes@[i].num_cores,
{
}

/// Routing an arrived request keeps the requests in flight within the
/// cores that the nodes may use.
pub proof fn lemma_arrived_respects_cores(
    before: WorldState,
    engine: EngineView,
    time: Time,
    event: RequestEvent,
    target: u32,
    arrival: Arrival,
    after: WorldState,
    engine_after: EngineView,
)
    requires
        before.is_sound(),
        target < before.nodes@.len(),
        cores_respected(before),
        arrived(before, engine, time, event, target, arrival, after, engine_after),
    ensures
        cores_respected(after),
        after.powersaving() == before.powersaving(),
{
    let routing = routing_of(before, engine.waiting.len() as int, event.amount, target);
    assert forall|i: int| 0 <= i < after.nodes@.len() implies (#[trigger] after.nodes@[i]).processing
        <= after.nodes@[i].effective_cores(after.powersaving()) by {
        match routing {
            RoutingDecision::Route { node, duration, takes_core } => {
                if takes_core && i != node {
                    assert(after.nodes@[i] == before.nodes@[i]);
                }
            },
            _ => {},
        }
        assert(before.nodes@[i].processing <= before.nodes@[i].effective_cores(
            before.powersaving(),
        ));
    }
}

/// Handing a routed request to a node keeps the requests in flight within
/// the cores that the nodes may use.
pub proof fn lemma_routed_respects_cores(
    before: WorldState,
    engine: EngineView,
    event: RequestEvent,
    node_num: u32,
    rolls: RoutedRolls,
    after: WorldState,
    engine_after: EngineView,
)
    requires
        before.is_sound(),
        rolls.target < before.nodes@.len(),
        cores_respected(before),
        routed(before, engine, event, node_num, rolls, after, engine_after),
    ensures
        cores_respected(after),
        after.powersaving() == before.powersaving(),
{
    if node_num < before.nodes@.len() {
        let nodes = nodes_after_routing(before, node_num as int);
        assert forall|i: int| 0 <= i < after.nodes@.len() implies (
        #[trigger] after.nodes@[i]).processing <= after.nodes@[i].effective_cores(
            after.powersaving(),
        ) by {
            assert(before.nodes@[i].processing <= before.nodes@[i].effective_cores(
                before.powersaving(),
            ));
            assert(nodes[i].processing <= before.nodes@[i].processing);
            assert(nodes[i].num_cores == before.nodes@[i].num_cores);
            if i != rolls.target {
                assert(after.nodes@[i] == nodes[i]);
            }
        }
    }
}

/// Booking a completed request, and starting the requests that waited for
/// its core, keeps the requests in flight within the cores that the nodes
/// may use.
pub proof fn lemma_processed_respects_cores(
    before: WorldState,
    engine: EngineView,
    time: Time,
    event: RequestEvent,
    node_num: u32,
    ram_required: Memory,
    after: WorldState,
    engine_after: EngineView,
)
    requires
        before.is_sound(),
        cores_respected(before),
        processed(before, engine, time, event, node_num, ram_required, after, engine_after),
    ensures
        cores_respected(after),
        after.powersaving() == before.powersaving(),
{
    if node_num < before.nodes@.len() {
        assert forall|i: int| 0 <= i < after.nodes@.len() implies (
        #[trigger] after.nodes@[i]).processing <= after.nodes@[i].effective_cores(
            after.powersaving(),
        ) by {
            assert(before.nodes@[i].processing <= before.nodes@[i].effective_cores(
                before.powersaving(),
            ));
            if i != node_num {
                assert(after.nodes@[i] == before.nodes@[i]);
            }
        }
    }
}

} // verus!
