//! The first stage of a request: it arrives and is routed, and its cohort
//! schedules the next one or leaves.

use vstd::prelude::*;

use crate::cloud_user::CloudUserSpec;
use crate::electricity::capped_sum;
use crate::engine::{Arrival, EngineView, GameEngine, WaitingRouteRequest};
use crate::node::CloudNode;
use crate::queue::{time_after, time_plus, with_event, RequestEvent, RequestEventStage};
use crate::routing::{routing_of, RoutingDecision};
use crate::service::ServiceKind;
use crate::state::{find_cohort, nodes_kept_but, without_cohort, WorldState};
use crate::Time;

verus! {

/// The event of a request having been routed.
pub open spec fn routed_event(event: RequestEvent, duration: u32, node: u32) -> RequestEvent {
    RequestEvent {
        timestamp: time_after(event.timestamp, duration as int),
        kind: RequestEventStage::RequestRouted { node_num: node },
        ..event
    }
}

/// The event of the next request of the cohort of `event`.
pub open spec fn next_arrival_event(
    event: RequestEvent,
    arrival: Arrival,
    service: ServiceKind,
    bad: bool,
) -> RequestEvent {
    RequestEvent {
        timestamp: time_after(event.timestamp, arrival.delay * event.amount),
        user_spec_id: event.user_spec_id,
        amount: arrival.amount,
        service,
        bad,
        kind: RequestEventStage::RequestArrived,
    }
}

/// What a cohort does after one of its requests has arrived.
#[derive(Debug, Clone, Copy, PartialEq, Eq, Structural)]
pub enum Rearm {
    /// The request came from the player or from a cohort that is gone:
    /// nothing follows.
    Nothing,
    /// The cohort is live: its next request is scheduled.
    Schedule { service: ServiceKind, bad: bool },
    /// The trial of the cohort has ended: the cohort leaves.
    Retire,
}

/// What the cohort of `event` does at `time`.
pub open spec fn rearm_of(state: WorldState, time: Time, event: RequestEvent) -> Rearm {
    match event.user_spec_id {
        None => Rearm::Nothing,
        Some(id) => match find_cohort(state.user_specs@, id) {
            None => Rearm::Nothing,
            Some(spec) => if spec.is_live(time) {
                Rearm::Schedule { service: spec.service, bad: spec.bad }
            } else {
                Rearm::Retire
            },
        },
    }
}

/// Whether `after` is `before` after an arrived request was routed.
///
/// The request goes where [`routing_of`] says: to a node (which gives a
/// core to the routing where routing is work), into the waiting queue, or
/// nowhere, in which case it counts as dropped. Then the cohort of the
/// request does what [`rearm_of`] says: it schedules its next request, or it
/// leaves.
pub open spec fn arrived(
    before: WorldState,
    engine: EngineView,
    time: Time,
    event: RequestEvent,
    target: u32,
    arrival: Arrival,
    after: WorldState,
    engine_after: EngineView,
) -> bool {
    let routing = routing_of(before, engine.waiting.len() as int, event.amount, target);
    let rearm = rearm_of(before, time, event);
    let routed_queue = match routing {
        RoutingDecision::Route { node, duration, takes_core } => with_event(
            engine.queue,
            routed_event(event, duration, node),
        ),
        _ => engine.queue,
    };
    &&& match routing {
        RoutingDecision::Route { node, duration, takes_core } => if takes_core {
            &&& nodes_kept_but(before.nodes@, after.nodes@, node as int)
            &&& after.nodes@[node as int] == (CloudNode {
                processing: (before.nodes@[node as int].processing + 1) as u32,
                ..before.nodes@[node as int]
            })
        } else {
            after.nodes@ == before.nodes@
        },
        _ => after.nodes@ == before.nodes@,
    }
    &&& engine_after.queue == match rearm {
        Rearm::Schedule { service, bad } => with_event(
            routed_queue,
            next_arrival_event(event, arrival, service, bad),
        ),
        _ => routed_queue,
    }
    &&& engine_after.waiting == if routing is Enqueue {
        engine.waiting.push(
            WaitingRouteRequest {
                amount: event.amount,
                user_spec_id: event.user_spec_id,
                service: event.service,
                bad: event.bad,
            },
        )
    } else {
        engine.waiting
    }
    &&& after.requests_dropped == if routing is Drop {
        capped_sum(before.requests_dropped as int, event.amount as int) as u64
    } else {
        before.requests_dropped
    }
    &&& engine_after.dropped == if routing is Drop {
        capped_sum(engine.dropped as int, event.amount as int) as u64
    } else {
        engine.dropped
    }
    &&& after.user_specs@ == if rearm is Retire {
        without_cohort(before.user_specs@, event.user_spec_id->0)
    } else {
        before.user_specs@
    }
    &&& after == (WorldState {
        nodes: after.nodes,
        user_specs: after.user_specs,
        requests_dropped: after.requests_dropped,
        ..before
    })
    &&& engine_after == (EngineView {
        queue: engine_after.queue,
        waiting: engine_after.waiting,
        dropped: engine_after.dropped,
        ..engine
    })
}

/// The event of the first request of a cohort, which arrives
/// `arrival.delay` after the time of `state`.
pub open spec fn first_event(state: WorldState, spec: CloudUserSpec, arrival: Arrival) -> RequestEvent {
    RequestEvent {
        timestamp: time_after(state.time, arrival.delay as int),
        user_spec_id: Some(spec.id),
        amount: arrival.amount,
        service: spec.service,
        bad: spec.bad,
        kind: RequestEventStage::RequestArrived,
    }
}

impl GameEngine {
    /// Schedules the first request of a cohort: it arrives `arrival.delay`
    /// after the time of `state` and stands for `arrival.amount` requests.
    pub fn bootstrap_events_for(
        &mut self,
        state: &WorldState,
        user_spec: &CloudUserSpec,
        arrival: Arrival,
    )
        ensures
            final(self).chance() == old(self).chance(),
            final(self)@ == (EngineView {
                queue: with_event(old(self)@.queue, first_event(*state, *user_spec, arrival)),
                ..old(self)@
            }),
    {
        self.queue.push(
            RequestEvent::new_arrived(
                time_plus(state.time, arrival.delay),
                Some(user_spec.id),
                arrival.amount,
                user_spec.service,
                user_spec.bad,
            ),
        );
    }

    /// What the cohort of an arrived request does at `time`.
    pub fn rearm(state: &WorldState, time: Time, event: &RequestEvent) -> (rearm: Rearm)
        requires
            state.is_sound(),
        ensures
            rearm == rearm_of(*state, time, *event),
    {
        match event.user_spec_id {
            None => Rearm::Nothing,
            Some(id) => match state.user_spec(id) {
                None => Rearm::Nothing,
                Some(spec) => if spec.trial_time > time || spec.trial_time == 0 {
                    Rearm::Schedule { service: spec.service, bad: spec.bad }
                } else {
                    Rearm::Retire
                },
            },
        }
    }

    /// Sends a request that has arrived where [`routing_of`] says.
    fn route_arrival(&mut self, state: &mut WorldState, event: RequestEvent, target: u32) -> (routing:
        RoutingDecision)
        requires
            old(state).is_sound(),
            target < old(state).nodes@.len(),
        ensures
            final(self).chance() == old(self).chance(),
            final(state).is_sound(),
            routing == routing_of(*old(state), old(self)@.waiting.len() as int, event.amount, target),
            match routing {
                RoutingDecision::Route { node, duration, takes_core } => if takes_core {
                    &&& nodes_kept_but(old(state).nodes@, final(state).nodes@, node as int)
                    &&& final(state).nodes@[node as int] == (CloudNode {
                        processing: (old(state).nodes@[node as int].processing + 1) as u32,
                        ..old(state).nodes@[node as int]
                    })
                } else {
                    final(state).nodes@ == old(state).nodes@
                },
                _ => final(state).nodes@ == old(state).nodes@,
            },
            final(self)@.queue == match routing {
                RoutingDecision::Route { node, duration, takes_core } => with_event(
                    old(self)@.queue,
                    routed_event(event, duration, node),
                ),
                _ => old(self)@.queue,
            },
            final(self)@.waiting == if routing is Enqueue {
                old(self)@.waiting.push(
                    WaitingRouteRequest {
                        amount: event.amount,
                        user_spec_id: event.user_spec_id,
                        service: event.service,
                        bad: event.bad,
                    },
                )
            } else {
                old(self)@.waiting
            },
            final(state).requests_dropped == if routing is Drop {
                capped_sum(old(state).requests_dropped as int, event.amount as int) as u64
            } else {
                old(state).requests_dropped
            },
            final(self)@.dropped == if routing is Drop {
                capped_sum(old(self)@.dropped as int, event.amount as int) as u64
            } else {
                old(self)@.dropped
            },
            *final(state) == (WorldState {
                nodes: final(state).nodes,
                requests_dropped: final(state).requests_dropped,
                ..*old(state)
            }),
            final(self)@ == (EngineView {
                queue: final(self)@.queue,
                waiting: final(self)@.waiting,
                dropped: final(self)@.dropped,
                ..old(self)@
            }),
    {
        let routing = state.routing_decision(self.waiting_queue.len(), event.amount, target);
        match routing {
            RoutingDecision::Route { node, duration, takes_core } => {
                if takes_core {
                    let through = &mut state.nodes[node as usize];
                    through.processing = through.processing + 1;
                }
                self.queue.push(event.into_routed(duration, node));
            },
            RoutingDecision::Enqueue => {
                self.waiting_queue.push_back(
                    WaitingRouteRequest {
                        amount: event.amount,
                        user_spec_id: event.user_spec_id,
                        service: event.service,
                        bad: event.bad,
                    },
                );
            },
            RoutingDecision::Drop => {
                self.count_dropped(state, event.amount);
            },
        }
        routing
    }

    /// Lets the cohort of a request that has arrived do what [`rearm_of`]
    /// says.
    fn rearm_cohort(
        &mut self,
        state: &mut WorldState,
        time: Time,
        event: RequestEvent,
        arrival: Arrival,
    ) -> (rearm: Rearm)
        requires
            old(state).is_sound(),
        ensures
            final(self).chance() == old(self).chance(),
            final(state).is_sound(),
            rearm == rearm_of(*old(state), time, event),
            final(self)@ == (EngineView {
                queue: match rearm {
                    Rearm::Schedule { service, bad } => with_event(
                        old(self)@.queue,
                        next_arrival_event(event, arrival, service, bad),
                    ),
                    _ => old(self)@.queue,
                },
                ..old(self)@
            }),
            final(state).user_specs@ == if rearm is Retire {
                without_cohort(old(state).user_specs@, event.user_spec_id->0)
            } else {
                old(state).user_specs@
            },
            *final(state) == (WorldState { user_specs: final(state).user_specs, ..*old(state) }),
    {
        let rearm = Self::rearm(state, time, &event);
        match rearm {
            Rearm::Schedule { service, bad } => {
                let wait: u64 = match arrival.delay.checked_mul(event.amount as u64) {
                    Some(wait) => wait,
                    None => u64::MAX,
                };
                self.queue.push(
                    RequestEvent::new_arrived(
                        time_plus(event.timestamp, wait),
                        event.user_spec_id,
                        arrival.amount,
                        service,
                        bad,
                    ),
                );
            },
            Rearm::Retire => {
                if let Some(id) = event.user_spec_id {
                    state.remove_cohort(id);
                }
            },
            Rearm::Nothing => {},
        }
        rearm
    }

    /// Routes a request that has arrived, and lets its cohort schedule its
    /// next request or leave. `target` is the node that chance has picked
    /// for the request, and `arrival` says when the next request of the
    /// cohort comes.
    pub fn process_arrived(
        &mut self,
        state: &mut WorldState,
        time: Time,
        event: RequestEvent,
        target: u32,
        arrival: Arrival,
    )
        requires
            old(state).is_sound(),
            target < old(state).nodes@.len(),
        ensures
            final(self).chance() == old(self).chance(),
            final(state).is_sound(),
            arrived(*old(state), old(self)@, time, event, target, arrival, *final(state), final(self)@),
    {
        let routing = self.route_arrival(state, event, target);
        let rearm = self.rearm_cohort(state, time, event, arrival);
    }
}

} // verus!
