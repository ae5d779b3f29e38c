//! The engine: it takes the request events in the order of their time and
//! carries each request from its arrival to its end.

use std::collections::VecDeque;
use vstd::prelude::*;

use crate::electricity::{capped_add, capped_sum};
use crate::engine::arrival::arrived;
use crate::engine::completion::processed;
use crate::engine::handover::routed;
use crate::queue::{RequestEvent, RequestEventQueue, RequestEventStage};
use crate::routing::{free_count, is_nth_free, target_allowed};
use crate::sampling::{CHANCE_SCALE, Chance, SampleGenerator};
use crate::service::ServiceKind;
use crate::state::{find_cohort, RoutingLevel, WorldState};
use crate::Time;

pub use crate::engine::arrival::Rearm;
pub use crate::engine::run::UpdateOutcome;

pub mod actions;
pub mod arrival;
pub mod clock;
pub mod completion;
pub mod handover;
pub mod run;

verus! {

/// The demand, in thousandths of a request per second, above which
/// arrivals are bundled.
pub const GROUPING_THRESHOLD: u64 = 30_000_000;

/// The demand that one bundle of arrivals stands for, in thousandths.
pub const GROUPING_UNIT: u64 = 20_000_000;

/// The most requests that are bundled into one arrival.
pub const MAX_GROUP: u64 = 250;

/// When a cohort sends its next request, and how many requests that one
/// stands for.
#[derive(Debug, Clone, Copy, PartialEq, Eq, Structural)]
pub struct Arrival {
    /// the time units until the next request, for each request of the one
    /// that has just arrived
    pub delay: Time,
    /// how many requests the next one stands for
    pub amount: u32,
}

/// A request, or a set of requests bundled into one, that waits to be
/// routed.
#[derive(Debug, Clone, Copy, PartialEq, Eq, Structural)]
pub struct WaitingRouteRequest {
    /// how many requests are bundled into this one
    pub amount: u32,
    /// the cohort that the request comes from, or `None` where the player
    /// asked for it
    pub user_spec_id: Option<u32>,
    pub service: ServiceKind,
    /// whether the request is malicious
    pub bad: bool,
}

/// What chance decides for a request that has been routed.
#[derive(Debug, Clone, Copy, PartialEq, Eq, Structural)]
pub struct RoutedRolls {
    /// the roll of the spam filter, below [`CHANCE_SCALE`]
    pub spam: u32,
    /// the node that is to process the request
    pub target: u32,
    /// the roll of the cache, below [`CHANCE_SCALE`]
    pub cache: u32,
}

/// What the engine holds, as contracts speak of it.
pub struct EngineView {
    /// the pending events, the next one first
    pub queue: Seq<RequestEvent>,
    /// the requests that wait to be routed, the oldest first
    pub waiting: Seq<WaitingRouteRequest>,
    /// the requests fulfilled since the last major update
    pub fulfilled: u64,
    /// the requests dropped since the last major update
    pub dropped: u64,
    /// the malicious requests that failed since the last major update
    pub failed: u64,
    /// the share of the requests that were dropped between the last two
    /// major updates, in thousandths
    pub drop_rate: u32,
    /// the share of the requests that failed between the last two major
    /// updates, in thousandths
    pub failure_rate: u32,
}

/// The engine of a game.
#[derive(Debug)]
pub struct GameEngine {
    /// the pending events
    queue: RequestEventQueue,
    /// the source of chance
    gen: SampleGenerator,
    /// the requests that found every node busy and wait to be routed
    waiting_queue: VecDeque<WaitingRouteRequest>,
    recent_requests_fulfilled: u64,
    recent_requests_dropped: u64,
    recent_requests_failed: u64,
    /// the share of the requests that were dropped between the last two
    /// major updates, in thousandths
    pub drop_rate: u32,
    /// the share of the requests that failed between the last two major
    /// updates, in thousandths
    pub failure_rate: u32,
}

/// How the arrivals of a demand are bundled: the demand of the bundles, and
/// how many requests one bundle stands for. Above the threshold one request
/// is bundled for every full unit of demand, up to the largest bundle, and
/// the bundles come that much more rarely.
pub open spec fn grouped(demand: u64) -> (u64, u32) {
    if demand > GROUPING_THRESHOLD {
        let group = if demand / GROUPING_UNIT > MAX_GROUP {
            MAX_GROUP
        } else {
            demand / GROUPING_UNIT
        };
        ((demand / group) as u64, group as u32)
    } else {
        (demand, 1)
    }
}

/// What the engine tells its host of an event that names something that is
/// not there. Such an event is no error: the engine goes on as the variants
/// say.
#[derive(Debug, Clone, Copy, PartialEq, Eq, Structural)]
pub enum Diagnostic {
    /// The event names nothing that is not there.
    Clear,
    /// The request comes from a cohort that is not there (any more). It is
    /// taken as a request that the player has asked for: no further request
    /// follows it, and it earns no more than its entitlement.
    UnknownCohort { id: u32 },
    /// The request was routed to, or processed by, a node that is not there.
    /// The event is ignored.
    UnknownNode { node_num: u32 },
}

/// What the engine tells of `event` when it carries the request of the
/// event one stage on from `state`.
pub open spec fn diagnostic_of(state: WorldState, event: RequestEvent) -> Diagnostic {
    let cohort = match event.user_spec_id {
        Some(id) => if find_cohort(state.user_specs@, id) is None {
            Diagnostic::UnknownCohort { id }
        } else {
            Diagnostic::Clear
        },
        None => Diagnostic::Clear,
    };
    match event.kind {
        RequestEventStage::RequestArrived => cohort,
        RequestEventStage::RequestRouted { node_num } => if node_num >= state.nodes@.len() {
            Diagnostic::UnknownNode { node_num }
        } else {
            Diagnostic::Clear
        },
        RequestEventStage::RequestProcessed { node_num, ram_required } => if node_num
            >= state.nodes@.len() {
            Diagnostic::UnknownNode { node_num }
        } else {
            cohort
        },
    }
}

/// Whether `target` is the node that a generator picks for a request that
/// has arrived, and `after` is the generator after that.
///
/// Where routing has no cost the next pick of the generator is the node.
/// Where routing is distributed and a node has a core left, the next pick
/// counts off the nodes that have one. In both cases the generator moves
/// on. Else the first node is picked, and the generator stays.
pub open spec fn target_picked(
    state: WorldState,
    chance: Chance,
    target: u32,
    after: Chance,
) -> bool {
    let nodes = state.nodes@;
    let free = free_count(nodes, state.powersaving());
    if nodes.len() > 1 && state.routing_level == RoutingLevel::NoRoutingCost {
        target == chance.pick(0, nodes.len() as u32) && after == chance.moved_on()
    } else if nodes.len() > 1 && state.routing_level == RoutingLevel::Distributed && free > 0 {
        is_nth_free(
            nodes,
            state.powersaving(),
            chance.pick(0, free as u32) as int,
            target as int,
        ) && after == chance.moved_on()
    } else {
        target == 0 && after == chance
    }
}

/// What a generator decides for a request that has been routed among
/// `nodes` nodes, with its next three picks: the roll of the spam filter,
/// the node that is to process the request, and the roll of the cache.
pub open spec fn routed_rolls(chance: Chance, nodes: u32) -> RoutedRolls {
    RoutedRolls {
        spam: chance.pick(0, CHANCE_SCALE),
        target: chance.moved_on().pick(0, nodes),
        cache: chance.moved_on().moved_on().pick(0, CHANCE_SCALE),
    }
}

/// Whether `after`, `engine_after` and `chance_after` are what carrying the
/// request of `event` one stage on makes of `before`, `engine` and the
/// generator `chance`.
///
/// An arrived request is routed as [`arrived`] says, to the node that the
/// generator picks. A routed request is handed on as [`routed`] says, with
/// the next three picks of the generator. A completed request is booked as
/// [`processed`] says, and leaves the generator as it is.
pub open spec fn decided(
    before: WorldState,
    engine: EngineView,
    chance: Chance,
    time: Time,
    event: RequestEvent,
    arrival: Arrival,
    after: WorldState,
    engine_after: EngineView,
    chance_after: Chance,
) -> bool {
    match event.kind {
        RequestEventStage::RequestArrived => exists|target: u32|
            #[trigger] target_picked(before, chance, target, chance_after) && arrived(
                before,
                engine,
                time,
                event,
                target,
                arrival,
                after,
                engine_after,
            ),
        RequestEventStage::RequestRouted { node_num } => routed(
            before,
            engine,
            event,
            node_num,
            routed_rolls(chance, before.nodes@.len() as u32),
            after,
            engine_after,
        ) && chance_after == chance.moved_on().moved_on().moved_on(),
        RequestEventStage::RequestProcessed { node_num, ram_required } => processed(
            before,
            engine,
            time,
            event,
            node_num,
            ram_required,
            after,
            engine_after,
        ) && chance_after == chance,
    }
}

impl View for GameEngine {
    type V = EngineView;

    closed spec fn view(&self) -> EngineView {
        EngineView {
            queue: self.queue@,
            waiting: self.waiting_queue@,
            fulfilled: self.recent_requests_fulfilled,
            dropped: self.recent_requests_dropped,
            failed: self.recent_requests_failed,
            drop_rate: self.drop_rate,
            failure_rate: self.failure_rate,
        }
    }
}

impl GameEngine {
    /// The generator of the engine: the seed of its chance, and how far the
    /// engine has come in the stream of that seed.
    pub closed spec fn chance(&self) -> Chance {
        self.gen@
    }

    /// An engine with nothing pending, whose chance comes from the
    /// operating system.
    pub fn new() -> (engine: Self)
        ensures
            engine@ == (EngineView {
                queue: Seq::empty(),
                waiting: Seq::empty(),
                fulfilled: 0,
                dropped: 0,
                failed: 0,
                drop_rate: 0,
                failure_rate: 0,
            }),
            engine.chance().position == 0,
    {
        GameEngine {
            queue: RequestEventQueue::new(),
            gen: SampleGenerator::new(),
            waiting_queue: VecDeque::new(),
            recent_requests_fulfilled: 0,
            recent_requests_dropped: 0,
            recent_requests_failed: 0,
            drop_rate: 0,
            failure_rate: 0,
        }
    }

    /// An engine with nothing pending, whose chance is fixed by `seed`: its
    /// generator stands at the start of the stream of `seed`, so that two
    /// engines of one seed decide alike.
    pub fn with_seed(seed: u64) -> (engine: Self)
        ensures
            engine@ == (EngineView {
                queue: Seq::empty(),
                waiting: Seq::empty(),
                fulfilled: 0,
                dropped: 0,
                failed: 0,
                drop_rate: 0,
                failure_rate: 0,
            }),
            engine.chance() == (Chance { seed, position: 0 }),
    {
        GameEngine {
            queue: RequestEventQueue::new(),
            gen: SampleGenerator::from_seed(seed),
            waiting_queue: VecDeque::new(),
            recent_requests_fulfilled: 0,
            recent_requests_dropped: 0,
            recent_requests_failed: 0,
            drop_rate: 0,
            failure_rate: 0,
        }
    }

    /// Computes [`grouped`].
    pub fn group_demand(demand: u64) -> (bundles: (u64, u32))
        ensures
            bundles == grouped(demand),
    {
        if demand > GROUPING_THRESHOLD {
            let units: u64 = demand / GROUPING_UNIT;
            let group: u64 = if units > MAX_GROUP {
                MAX_GROUP
            } else {
                units
            };
            (demand / group, group as u32)
        } else {
            (demand, 1)
        }
    }

    /// How many events are pending.
    pub fn pending_events(&self) -> (count: usize)
        ensures
            count == self@.queue.len(),
    {
        self.queue.len()
    }

    /// How many requests wait to be routed.
    pub fn waiting_requests(&self) -> (count: usize)
        ensures
            count == self@.waiting.len(),
    {
        self.waiting_queue.len()
    }

    /// The next event, if it is due at `time`: the first of the pending
    /// events, where its time is no later than `time`.
    pub fn next_due(&self, time: Time) -> (event: Option<RequestEvent>)
        ensures
            event == if self@.queue.len() > 0 && self@.queue[0].timestamp <= time {
                Some(self@.queue[0])
            } else {
                None
            },
    {
        match self.queue.peek() {
            Some(event) => if event.timestamp <= time {
                Some(event)
            } else {
                None
            },
            None => None,
        }
    }

    /// Takes out the next event, if it is due at `time`.
    pub fn pop_due(&mut self, time: Time) -> (event: Option<RequestEvent>)
        ensures
            final(self).chance() == old(self).chance(),
            event == if old(self)@.queue.len() > 0 && old(self)@.queue[0].timestamp <= time {
                Some(old(self)@.queue[0])
            } else {
                None
            },
            final(self)@ == (EngineView {
                queue: if event is Some {
                    old(self)@.queue.skip(1)
                } else {
                    old(self)@.queue
                },
                ..old(self)@
            }),
    {
        match self.queue.peek() {
            Some(event) => if event.timestamp <= time {
                self.queue.pop()
            } else {
                None
            },
            None => None,
        }
    }

    /// Counts `amount` requests as dropped.
    fn count_dropped(&mut self, state: &mut WorldState, amount: u32)
        ensures
            final(self).chance() == old(self).chance(),
            *final(state) == (WorldState {
                requests_dropped: capped_sum(old(state).requests_dropped as int, amount as int) as u64,
                ..*old(state)
            }),
            final(self)@ == (EngineView {
                dropped: capped_sum(old(self)@.dropped as int, amount as int) as u64,
                ..old(self)@
            }),
    {
        state.requests_dropped = capped_add(state.requests_dropped, amount as u64);
        self.recent_requests_dropped = capped_add(self.recent_requests_dropped, amount as u64);
    }

    /// Counts `amount` malicious requests as failed.
    fn count_failed(&mut self, state: &mut WorldState, amount: u32)
        ensures
            final(self).chance() == old(self).chance(),
            *final(state) == (WorldState {
                requests_failed: capped_sum(old(state).requests_failed as int, amount as int) as u64,
                ..*old(state)
            }),
            final(self)@ == (EngineView {
                failed: capped_sum(old(self)@.failed as int, amount as int) as u64,
                ..old(self)@
            }),
    {
        state.requests_failed = capped_add(state.requests_failed, amount as u64);
        self.recent_requests_failed = capped_add(self.recent_requests_failed, amount as u64);
    }
}

impl GameEngine {
    /// Lets chance pick the node for a request that has arrived: any node
    /// where routing has no cost; a node with a core left, each with the
    /// same chance, where routing is distributed and there is such a node;
    /// else the first node.
    pub fn pick_target(&mut self, state: &WorldState) -> (target: u32)
        requires
            state.is_sound(),
        ensures
            target_picked(*state, old(self).chance(), target, final(self).chance()),
            target_allowed(*state, target),
            final(self)@ == old(self)@,
    {
        let count: u32 = state.nodes.len() as u32;
        if count > 1 && state.routing_level == RoutingLevel::NoRoutingCost {
            self.gen.gen_range(0, count)
        } else if count > 1 && state.routing_level == RoutingLevel::Distributed {
            let powersave = state.is_powersaving();
            let free = state.count_free_nodes(powersave);
            if free > 0 {
                let k = self.gen.gen_range(0, free);
                state.nth_free_node(powersave, k)
            } else {
                0
            }
        } else {
            0
        }
    }

    /// Lets chance decide what a routed request needs decided: the roll of
    /// the spam filter, the node that is to process the request (any node,
    /// each with the same chance), and the roll of the cache. These are the
    /// next three picks of the generator of the engine, in this order.
    pub fn roll_routed(&mut self, state: &WorldState) -> (rolls: RoutedRolls)
        requires
            state.is_sound(),
        ensures
            rolls == routed_rolls(old(self).chance(), state.nodes@.len() as u32),
            final(self).chance() == old(self).chance().moved_on().moved_on().moved_on(),
            rolls.spam < CHANCE_SCALE,
            rolls.cache < CHANCE_SCALE,
            rolls.target < state.nodes@.len(),
            final(self)@ == old(self)@,
    {
        let spam = self.gen.gen_range(0, CHANCE_SCALE);
        let target = self.gen.gen_range(0, state.nodes.len() as u32);
        let cache = self.gen.gen_range(0, CHANCE_SCALE);
        RoutedRolls { spam, target, cache }
    }

    /// What the engine tells of `event` when it carries the request of the
    /// event one stage on from `state`: whether the event names a cohort or a
    /// node that is not there.
    pub fn diagnose(state: &WorldState, event: &RequestEvent) -> (diagnostic: Diagnostic)
        requires
            state.is_sound(),
        ensures
            diagnostic == diagnostic_of(*state, *event),
    {
        let cohort = match event.user_spec_id {
            Some(id) => if state.user_spec(id).is_none() {
                Diagnostic::UnknownCohort { id }
            } else {
                Diagnostic::Clear
            },
            None => Diagnostic::Clear,
        };
        match event.kind {
            RequestEventStage::RequestArrived => cohort,
            RequestEventStage::RequestRouted { node_num } => if node_num as usize
                >= state.nodes.len() {
                Diagnostic::UnknownNode { node_num }
            } else {
                Diagnostic::Clear
            },
            RequestEventStage::RequestProcessed { node_num, ram_required } => if node_num as usize
                >= state.nodes.len() {
                Diagnostic::UnknownNode { node_num }
            } else {
                cohort
            },
        }
    }

    /// Carries the request of `event` one stage on. What chance decides, it
    /// decides here; `arrival` says when the next request of the cohort of
    /// an arrived request comes.
    ///
    /// Returns what the event has to tell (see [`diagnostic_of`]).
    ///
    /// What comes of it is what [`decided`] says for the generator of the
    /// engine. The node that the generator picks for an arrived request is
    /// one that chance may pick, and its picks for a routed request lie
    /// within their ranges.
    pub fn process_event(
        &mut self,
        state: &mut WorldState,
        time: Time,
        event: RequestEvent,
        arrival: Arrival,
    ) -> (diagnostic: Diagnostic)
        requires
            old(state).is_sound(),
        ensures
            final(state).is_sound(),
            diagnostic == diagnostic_of(*old(state), event),
            decided(
                *old(state),
                old(self)@,
                old(self).chance(),
                time,
                event,
                arrival,
                *final(state),
                final(self)@,
                final(self).chance(),
            ),
            match event.kind {
                RequestEventStage::RequestArrived => exists|target: u32|
                    target_allowed(*old(state), target) && #[trigger] arrived(
                        *old(state),
                        old(self)@,
                        time,
                        event,
                        target,
                        arrival,
                        *final(state),
                        final(self)@,
                    ),
                RequestEventStage::RequestRouted { node_num } => exists|rolls: RoutedRolls|
                    rolls.spam < CHANCE_SCALE && rolls.cache < CHANCE_SCALE && rolls.target < old(
                        state,
                    ).nodes@.len() && #[trigger] routed(
                        *old(state),
                        old(self)@,
                        event,
                        node_num,
                        rolls,
                        *final(state),
                        final(self)@,
                    ),
                RequestEventStage::RequestProcessed { node_num, ram_required } => processed(
                    *old(state),
                    old(self)@,
                    time,
                    event,
                    node_num,
                    ram_required,
                    *final(state),
                    final(self)@,
                ),
            },
    {
        let diagnostic = Self::diagnose(state, &event);
        match event.kind {
            RequestEventStage::RequestArrived => {
                let target = self.pick_target(state);
                self.process_arrived(state, time, event, target, arrival);
            },
            RequestEventStage::RequestRouted { node_num } => {
                let rolls = self.roll_routed(state);
                self.process_routed(state, event, node_num, rolls);
            },
            RequestEventStage::RequestProcessed { node_num, ram_required } => {
                self.process_processed(state, time, event, node_num, ram_required);
            },
        }
        diagnostic
    }
}

} // verus!
