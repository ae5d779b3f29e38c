//! How an arriving request finds its node.

use vstd::prelude::*;

use crate::node::{routing_duration, CloudNode};
use crate::state::{RoutingLevel, WorldState};

verus! {

/// How many requests, at most, wait to be routed. A request that arrives
/// when this many wait is dropped.
pub const ROUTING_QUEUE_CAPACITY: usize = 2_001;

/// What becomes of a request that has arrived.
#[derive(Debug, Clone, Copy, PartialEq, Eq, Structural)]
pub enum RoutingDecision {
    /// The request goes to `node`, where it is due after `duration`. Where
    /// routing is work, it holds a core of `node` until then.
    Route { node: u32, duration: u32, takes_core: bool },
    /// Every node is busy: the request waits to be routed.
    Enqueue,
    /// The request is dropped.
    Drop,
}

/// How many of the nodes have a core left.
pub open spec fn free_count(nodes: Seq<CloudNode>, powersave: bool) -> nat
    decreases nodes.len(),
{
    if nodes.len() == 0 {
        0
    } else {
        free_count(nodes.drop_last(), powersave) + if nodes.last().processing
            >= nodes.last().effective_cores(powersave) {
            0nat
        } else {
            1nat
        }
    }
}

/// Whether the node at `index` has a core left and exactly `k` of the nodes
/// before it have one.
pub open spec fn is_nth_free(nodes: Seq<CloudNode>, powersave: bool, k: int, index: int) -> bool {
    &&& 0 <= index < nodes.len()
    &&& nodes[index].processing < nodes[index].effective_cores(powersave)
    &&& free_count(nodes.take(index), powersave) == k
}

/// What becomes of `amount` requests that arrive while `waiting` requests
/// wait to be routed, where chance has picked the node `target`.
///
/// A single node takes every request at once. Without routing cost the
/// request goes to `target` at once. Otherwise routing is work for a core:
/// with every node busy the request waits, unless the waiting queue is full;
/// else it goes through `target` where routing is distributed, and through
/// the first node where it is not, and is dropped where that node is busy.
pub open spec fn routing_of(state: WorldState, waiting: int, amount: u32, target: u32) -> RoutingDecision {
    let powersave = state.powersaving();
    let nodes = state.nodes@;
    if nodes.len() == 1 {
        RoutingDecision::Route { node: 0, duration: 0, takes_core: false }
    } else if state.routing_level == RoutingLevel::NoRoutingCost {
        RoutingDecision::Route { node: target, duration: 0, takes_core: false }
    } else if free_count(nodes, powersave) == 0 {
        if waiting >= ROUTING_QUEUE_CAPACITY {
            RoutingDecision::Drop
        } else {
            RoutingDecision::Enqueue
        }
    } else {
        let node: u32 = if state.routing_level == RoutingLevel::Distributed {
            target
        } else {
            0
        };
        if nodes[node as int].processing >= nodes[node as int].effective_cores(powersave) {
            RoutingDecision::Drop
        } else {
            RoutingDecision::Route {
                node,
                duration: routing_duration(nodes[node as int].cpu_speed as int, amount as int) as u32,
                takes_core: true,
            }
        }
    }
}

/// Whether chance may pick the node `target` for an arriving request: it is
/// a node, and one with a core left where routing is distributed among
/// several nodes and such a node exists.
pub open spec fn target_allowed(state: WorldState, target: u32) -> bool {
    &&& target < state.nodes@.len()
    &&& state.nodes@.len() > 1 && state.routing_level == RoutingLevel::Distributed && free_count(
        state.nodes@,
        state.powersaving(),
    ) > 0 ==> state.nodes@[target as int].processing < state.nodes@[target as int].effective_cores(
        state.powersaving(),
    )
}

impl WorldState {
    /// How many of the nodes have a core left.
    pub fn count_free_nodes(&self, powersave: bool) -> (count: u32)
        requires
            self.nodes@.len() <= u32::MAX,
        ensures
            count == free_count(self.nodes@, powersave),
    {
        let mut count: u32 = 0;
        let mut i: usize = 0;
        assert(self.nodes@.take(0) =~= Seq::<CloudNode>::empty());
        while i < self.nodes.len()
            invariant
                0 <= i <= self.nodes@.len() <= u32::MAX,
                count == free_count(self.nodes@.take(i as int), powersave),
                count <= i,
            decreases self.nodes@.len() - i,
        {
            assert(self.nodes@.take(i as int + 1).drop_last() =~= self.nodes@.take(i as int));
            if !self.nodes[i].is_busy(powersave) {
                count = count + 1;
            }
            i = i + 1;
        }
        assert(self.nodes@.take(self.nodes@.len() as int) =~= self.nodes@);
        count
    }

    /// The node with a core left that has `k` such nodes before it.
    pub fn nth_free_node(&self, powersave: bool, k: u32) -> (node: u32)
        requires
            self.nodes@.len() <= u32::MAX,
            k < free_count(self.nodes@, powersave),
        ensures
            is_nth_free(self.nodes@, powersave, k as int, node as int),
    {
        let mut seen: u32 = 0;
        let mut i: usize = 0;
        assert(self.nodes@.take(0) =~= Seq::<CloudNode>::empty());
        while i < self.nodes.len()
            invariant
                0 <= i <= self.nodes@.len() <= u32::MAX,
                seen == free_count(self.nodes@.take(i as int), powersave),
                seen <= k,
                seen <= i,
            decreases self.nodes@.len() - i,
        {
            assert(self.nodes@.take(i as int + 1).drop_last() =~= self.nodes@.take(i as int));
            if !self.nodes[i].is_busy(powersave) {
                if seen == k {
                    return i as u32;
                }
                seen = seen + 1;
            }
            i = i + 1;
        }
        proof {
            assert(self.nodes@.take(self.nodes@.len() as int) =~= self.nodes@);
        }
        0
    }

    /// What becomes of `amount` requests that arrive while `waiting`
    /// requests wait to be routed, where chance has picked the node
    /// `target`.
    pub fn routing_decision(&self, waiting: usize, amount: u32, target: u32) -> (decision:
        RoutingDecision)
        requires
            self.is_sound(),
            target < self.nodes@.len(),
        ensures
            decision == routing_of(*self, waiting as int, amount, target),
    {
        let powersave = self.is_powersaving();
        if self.nodes.len() == 1 {
            RoutingDecision::Route { node: 0, duration: 0, takes_core: false }
        } else if self.routing_level == RoutingLevel::NoRoutingCost {
            RoutingDecision::Route { node: target, duration: 0, takes_core: false }
        } else if self.count_free_nodes(powersave) == 0 {
            if waiting >= ROUTING_QUEUE_CAPACITY {
                RoutingDecision::Drop
            } else {
                RoutingDecision::Enqueue
            }
        } else {
            let node: u32 = if self.routing_level == RoutingLevel::Distributed {
                target
            } else {
                0
            };
            let through = &self.nodes[node as usize];
            if through.is_busy(powersave) {
                RoutingDecision::Drop
            } else {
                RoutingDecision::Route {
                    node,
                    duration: through.routing_time(amount),
                    takes_core: true,
                }
            }
        }
    }
}

} // verus!
