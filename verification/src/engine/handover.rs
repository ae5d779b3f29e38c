//! The second stage of a request: it was routed and is handed to the node
//! that is to process it, unless the spam filter catches it.

use vstd::prelude::*;

use crate::electricity::{capped_sum, ENERGY_PER_ROUTING, Electricity};
use crate::engine::{EngineView, GameEngine, RoutedRolls};
use crate::memory::Memory;
use crate::node::{memory_for, processing_duration, Admission, CloudNode, WaitingRequest};
use crate::queue::{time_after, with_event, RequestEvent, RequestEventStage};
use crate::sampling::{roll_hits, roll_succeeds};
use crate::state::{
    cache_hit_chance, cache_hit_chances, calculate_memory_reserve_required, memory_reserve_required,
    nodes_kept_but, RoutingLevel, WorldState,
};

verus! {

/// Whether routing is work that takes a core and electricity: there is more
/// than one node, and routing has a cost.
pub open spec fn routing_is_work(state: WorldState) -> bool {
    state.nodes@.len() > 1 && state.routing_level != RoutingLevel::NoRoutingCost
}

/// The electricity figures after `amount` more was consumed.
pub open spec fn consumed_more(electricity: Electricity, amount: u64) -> Electricity {
    Electricity {
        consumed: capped_sum(electricity.consumed as int, amount as int) as u64,
        total_consumed: capped_sum(electricity.total_consumed as int, amount as int) as u64,
        recent_energy_consumed: capped_sum(
            electricity.recent_energy_consumed as int,
            amount as int,
        ) as u64,
        ..electricity
    }
}

/// The nodes after the node `node_num` has given back the core that routed
/// a request. Where routing is no work there is no core to give back.
pub open spec fn nodes_after_routing(state: WorldState, node_num: int) -> Seq<CloudNode> {
    let node = state.nodes@[node_num];
    if routing_is_work(state) && node.processing > 0 {
        state.nodes@.update(
            node_num,
            CloudNode { processing: (node.processing - 1) as u32, ..node },
        )
    } else {
        state.nodes@
    }
}

/// The electricity figures after a request was routed: routing consumes
/// where it is work, unless power is being saved.
pub open spec fn electricity_after_routing(state: WorldState) -> Electricity {
    if routing_is_work(state) && !state.powersaving() {
        consumed_more(state.electricity, ENERGY_PER_ROUTING)
    } else {
        state.electricity
    }
}

/// A routed request as a node takes it: with the time of its routing and
/// the memory that it holds.
pub open spec fn request_of(event: RequestEvent) -> WaitingRequest {
    WaitingRequest {
        timestamp: event.timestamp,
        amount: event.amount,
        user_spec_id: event.user_spec_id,
        service: event.service,
        mem_required: Memory(memory_for(event.service, event.amount as int) as i64),
    }
}

/// The event of a routed request having been processed.
pub open spec fn processed_event(
    event: RequestEvent,
    node: u32,
    duration: u32,
    ram_required: Memory,
) -> RequestEvent {
    RequestEvent {
        timestamp: time_after(event.timestamp, duration as int),
        kind: RequestEventStage::RequestProcessed { node_num: node, ram_required },
        ..event
    }
}

/// Whether the spam filter catches a request: it is malicious, there is a
/// filter, and the roll succeeds.
pub open spec fn caught(state: WorldState, event: RequestEvent, roll: u32) -> bool {
    event.bad && state.spam_protection > 0 && roll_succeeds(roll, state.spam_protection)
}

/// Whether `after` is `before` after a routed request was handed to a node.
///
/// A request that was routed to a node that does not exist is ignored. Else
/// the routing node gives its core back. A malicious request that the spam
/// filter catches ends here and counts as failed. Any other request goes to
/// the node `rolls.target`, which takes it in as [`CloudNode::took_in`]
/// says: the request runs (its completion is scheduled), waits, or is
/// dropped for want of memory.
pub open spec fn routed(
    before: WorldState,
    engine: EngineView,
    event: RequestEvent,
    node_num: u32,
    rolls: RoutedRolls,
    after: WorldState,
    engine_after: EngineView,
) -> bool {
    if node_num >= before.nodes@.len() {
        after == before && engine_after == engine
    } else {
        let powersave = before.powersaving();
        let nodes = nodes_after_routing(before, node_num as int);
        let is_caught = caught(before, event, rolls.spam);
        let request = request_of(event);
        let reserve = memory_reserve_required(
            event.service,
            before.cache_level as int,
            before.software_level as int,
        );
        let node = nodes[rolls.target as int];
        let admission = node.admission_of(reserve, request.mem_required@, powersave);
        let cache_hit = roll_succeeds(
            rolls.cache,
            cache_hit_chances()[before.cache_level as int] as u32,
        );
        let duration = processing_duration(
            node.cpu_speed as int,
            event.service,
            before.software_level as int,
            event.amount as int,
            powersave,
            cache_hit,
        );
        let is_dropped = !is_caught && (admission is NoReserve || admission is NoMemory);
        &&& after.electricity == electricity_after_routing(before)
        &&& if is_caught {
            after.nodes@ == nodes
        } else {
            &&& nodes_kept_but(nodes, after.nodes@, rolls.target as int)
            &&& node.took_in(&after.nodes@[rolls.target as int], reserve, request, admission)
        }
        &&& after.requests_failed == if is_caught {
            capped_sum(before.requests_failed as int, event.amount as int) as u64
        } else {
            before.requests_failed
        }
        &&& engine_after.failed == if is_caught {
            capped_sum(engine.failed as int, event.amount as int) as u64
        } else {
            engine.failed
        }
        &&& after.requests_dropped == if is_dropped {
            capped_sum(before.requests_dropped as int, event.amount as int) as u64
        } else {
            before.requests_dropped
        }
        &&& engine_after.dropped == if is_dropped {
            capped_sum(engine.dropped as int, event.amount as int) as u64
        } else {
            engine.dropped
        }
        &&& engine_after.queue == if !is_caught && admission is Started {
            with_event(
                engine.queue,
                processed_event(event, rolls.target, duration as u32, request.mem_required),
            )
        } else {
            engine.queue
        }
        &&& after == (WorldState {
            nodes: after.nodes,
            electricity: after.electricity,
            requests_failed: after.requests_failed,
            requests_dropped: after.requests_dropped,
            ..before
        })
        &&& engine_after == (EngineView {
            queue: engine_after.queue,
            failed: engine_after.failed,
            dropped: engine_after.dropped,
            ..engine
        })
    }
}

impl WorldState {
    /// Lets the node `node_num` give back the core that routed a request,
    /// and counts the electricity that the routing consumed.
    pub fn finish_routing(&mut self, node_num: u32)
        requires
            old(self).is_sound(),
            node_num < old(self).nodes@.len(),
        ensures
            final(self).is_sound(),
            final(self).nodes@ == nodes_after_routing(*old(self), node_num as int),
            final(self).electricity == electricity_after_routing(*old(self)),
            *final(self) == (WorldState {
                nodes: final(self).nodes,
                electricity: final(self).electricity,
                ..*old(self)
            }),
    {
        let powersave = self.is_powersaving();
        if self.nodes.len() > 1 && self.routing_level != RoutingLevel::NoRoutingCost {
            let node = &mut self.nodes[node_num as usize];
            if node.processing > 0 {
                node.processing = node.processing - 1;
            }
            if !powersave {
                self.electricity.add_consumption(ENERGY_PER_ROUTING);
            }
            assert(self.nodes@ =~= nodes_after_routing(*old(self), node_num as int));
        }
    }
}

impl GameEngine {
    /// Hands a request to the node `target`, and schedules its completion
    /// where the node starts it.
    fn hand_to_node(
        &mut self,
        state: &mut WorldState,
        event: RequestEvent,
        target: u32,
        cache_roll: u32,
    )
        requires
            old(state).is_sound(),
            target < old(state).nodes@.len(),
            event.kind is RequestRouted,
        ensures
            final(self).chance() == old(self).chance(),
            final(state).is_sound(),
            ({
                let powersave = old(state).powersaving();
                let node = old(state).nodes@[target as int];
                let request = request_of(event);
                let reserve = memory_reserve_required(
                    event.service,
                    old(state).cache_level as int,
                    old(state).software_level as int,
                );
                let admission = node.admission_of(reserve, request.mem_required@, powersave);
                let cache_hit = roll_succeeds(
                    cache_roll,
                    cache_hit_chances()[old(state).cache_level as int] as u32,
                );
                let duration = processing_duration(
                    node.cpu_speed as int,
                    event.service,
                    old(state).software_level as int,
                    event.amount as int,
                    powersave,
                    cache_hit,
                );
                let is_dropped = admission is NoReserve || admission is NoMemory;
                &&& nodes_kept_but(old(state).nodes@, final(state).nodes@, target as int)
                &&& node.took_in(&final(state).nodes@[target as int], reserve, request, admission)
                &&& final(state).requests_dropped == if is_dropped {
                    capped_sum(old(state).requests_dropped as int, event.amount as int) as u64
                } else {
                    old(state).requests_dropped
                }
                &&& final(self)@.dropped == if is_dropped {
                    capped_sum(old(self)@.dropped as int, event.amount as int) as u64
                } else {
                    old(self)@.dropped
                }
                &&& final(self)@.queue == if admission is Started {
                    with_event(
                        old(self)@.queue,
                        processed_event(event, target, duration as u32, request.mem_required),
                    )
                } else {
                    old(self)@.queue
                }
            }),
            *final(state) == (WorldState {
                nodes: final(state).nodes,
                requests_dropped: final(state).requests_dropped,
                ..*old(state)
            }),
            final(self)@ == (EngineView {
                queue: final(self)@.queue,
                dropped: final(self)@.dropped,
                ..old(self)@
            }),
    {
        let powersave = state.is_powersaving();
        let software_level = state.software_level;
        let reserve = calculate_memory_reserve_required(
            event.service,
            state.cache_level,
            state.software_level,
        );
        let cache_hit = roll_hits(cache_roll, cache_hit_chance(state.cache_level));
        let each: i64 = event.service.mem_required().0;
        assert(each * event.amount <= 4_000_000 * 0xffff_ffff) by (nonlinear_arith)
            requires
                0 <= each <= 4_000_000,
                0 <= event.amount <= 0xffff_ffff,
        ;
        assert(each * event.amount >= 0) by (nonlinear_arith)
            requires
                0 <= each,
                0 <= event.amount,
        ;
        let request = WaitingRequest {
            timestamp: event.timestamp,
            amount: event.amount,
            user_spec_id: event.user_spec_id,
            service: event.service,
            mem_required: Memory(each * (event.amount as i64)),
        };
        let node = &mut state.nodes[target as usize];
        let duration = node.processing_time(
            event.service,
            software_level,
            event.amount,
            powersave,
            cache_hit,
        );
        match node.take_in(reserve, request, powersave) {
            Admission::Started => {
                self.queue.push(event.into_processed(target, duration, request.mem_required));
            },
            Admission::Queued => {},
            _ => {
                self.count_dropped(state, event.amount);
            },
        }
    }

    /// Hands a routed request to a node. `node_num` is the node that routed
    /// the request, and `rolls` holds what chance has decided: the roll of
    /// the spam filter, the node that is to process the request, and the
    /// roll of the cache.
    pub fn process_routed(
        &mut self,
        state: &mut WorldState,
        event: RequestEvent,
        node_num: u32,
        rolls: RoutedRolls,
    )
        requires
            old(state).is_sound(),
            rolls.target < old(state).nodes@.len(),
            event.kind is RequestRouted,
        ensures
            final(self).chance() == old(self).chance(),
            final(state).is_sound(),
            routed(*old(state), old(self)@, event, node_num, rolls, *final(state), final(self)@),
    {
        if node_num as usize >= state.nodes.len() {
            return;
        }
        state.finish_routing(node_num);
        if event.bad && state.spam_protection > 0 && roll_hits(rolls.spam, state.spam_protection) {
            self.count_failed(state, event.amount);
        } else {
            self.hand_to_node(state, event, rolls.target, rolls.cache);
        }
    }
}

} // verus!
