//! The last stage of a request: it has completed, is booked, and leaves its
//! core to the next request.

use vstd::prelude::*;

use crate::cloud_user::CloudUserSpec;
use crate::electricity::{capped_add, capped_sum, ENERGY_PER_JOB};
use crate::engine::{EngineView, GameEngine, WaitingRouteRequest};
use crate::engine::handover::consumed_more;
use crate::memory::Memory;
use crate::money::{clamp_i64, Money};
use crate::node::{processing_duration, routing_duration, CloudNode, WaitingRequest};
use crate::ops::Ops;
use crate::queue::{time_after, time_plus, with_event, with_events, RequestEvent, RequestEventStage};
use crate::service::{ServiceInfo, ServiceKind};
use crate::state::{find_cohort, nodes_kept_but, RoutingLevel, WorldState};
use crate::Time;

verus! {

/// The figures of a service after `amount` of its operations were
/// performed.
pub open spec fn credited(info: ServiceInfo, amount: u32) -> ServiceInfo {
    ServiceInfo {
        total: Ops(clamp_i64(info.total@ + amount) as i64),
        available: Ops(clamp_i64(info.available@ + amount) as i64),
        ..info
    }
}

/// The figures of the service `kind` after the request of `event` has
/// completed: a request that is not malicious adds its operations to its
/// service.
pub open spec fn service_after_job(state: WorldState, event: RequestEvent, kind: ServiceKind) -> ServiceInfo {
    if kind == event.service && !event.bad {
        credited(state.service(kind), event.amount)
    } else {
        state.service(kind)
    }
}

/// What a completed request earns, in millicents: nothing where it is
/// malicious; else the entitlement of its service, and on top of that the
/// price of the service for each of its operations where it comes from a
/// cohort that pays at `time`. Each step is held at the ends of the range
/// of money.
pub open spec fn revenue_of(state: WorldState, time: Time, event: RequestEvent) -> int {
    let info = state.service(event.service);
    if event.bad {
        0
    } else {
        match event.user_spec_id {
            None => info.entitlement@,
            Some(id) => match find_cohort(state.user_specs@, id) {
                None => info.entitlement@,
                Some(spec) => if !spec.bad && time >= spec.trial_time {
                    clamp_i64(clamp_i64(info.price@ * event.amount) + info.entitlement@)
                } else {
                    info.entitlement@
                },
            },
        }
    }
}

/// Whether the cohort with the number `id` is malicious; a request of the
/// player, or of a cohort that is gone, is not.
pub open spec fn cohort_is_bad(specs: Seq<CloudUserSpec>, id: Option<u32>) -> bool {
    match id {
        None => false,
        Some(id) => match find_cohort(specs, id) {
            None => false,
            Some(spec) => spec.bad,
        },
    }
}

/// The memory that a node uses after it was given `memory` back: never
/// less than it has reserved.
pub open spec fn usage_after_release(node: CloudNode, memory: int) -> int {
    if memory <= 0 {
        node.ram_usage@
    } else if node.ram_usage@ - memory < node.ram_reserved@ {
        node.ram_reserved@
    } else {
        node.ram_usage@ - memory
    }
}

/// The time that a request takes that had to wait for its core, held at the
/// longest that can be represented.
pub open spec fn waited_duration(cpu_speed: int, software_level: int, request: WaitingRequest) -> int {
    processing_duration(
        cpu_speed,
        request.service,
        software_level,
        request.amount as int,
        false,
        false,
    )
}

/// The event of the completion of a request that waited in the node
/// `node_num` and starts at `start`.
pub open spec fn started_event(
    state: WorldState,
    start: Time,
    node_num: u32,
    request: WaitingRequest,
) -> RequestEvent {
    RequestEvent {
        timestamp: time_after(
            start,
            waited_duration(
                state.nodes@[node_num as int].cpu_speed as int,
                state.software_level as int,
                request,
            ),
        ),
        user_spec_id: request.user_spec_id,
        amount: request.amount,
        service: request.service,
        bad: cohort_is_bad(state.user_specs@, request.user_spec_id),
        kind: RequestEventStage::RequestProcessed {
            node_num,
            ram_required: request.mem_required,
        },
    }
}

/// The events of the completion of the first `count` requests that wait in
/// the node `node_num`.
pub open spec fn started_events(
    state: WorldState,
    start: Time,
    node_num: u32,
    count: int,
) -> Seq<RequestEvent> {
    Seq::new(
        count as nat,
        |k: int| started_event(state, start, node_num, state.nodes@[node_num as int].requests@[k]),
    )
}

/// The event of a request that waited to be routed and is now routed by
/// the node `node_num`, from `start` on.
pub open spec fn rerouted_event(
    state: WorldState,
    start: Time,
    node_num: u32,
    request: WaitingRouteRequest,
) -> RequestEvent {
    RequestEvent {
        timestamp: time_after(
            start,
            routing_duration(state.nodes@[node_num as int].cpu_speed as int, request.amount as int),
        ),
        user_spec_id: request.user_spec_id,
        amount: request.amount,
        service: request.service,
        bad: request.bad,
        kind: RequestEventStage::RequestRouted { node_num },
    }
}

/// Whether the core that a request has left goes to a request that waits
/// to be routed: there is one, and the node routes (it is the first node,
/// or routing is distributed).
pub open spec fn core_goes_to_routing(state: WorldState, engine: EngineView, node_num: u32) -> bool {
    engine.waiting.len() > 0 && (node_num == 0 || state.routing_level
        == RoutingLevel::Distributed)
}

/// How many of the requests that wait in a node start once the node has
/// given one core back: as many as the node has cores left, and no more
/// than wait.
pub open spec fn started_count(node: CloudNode, powersave: bool) -> int {
    let running = if node.processing > 0 {
        node.processing - 1
    } else {
        0
    };
    let free = if running >= node.effective_cores(powersave) {
        0
    } else {
        node.effective_cores(powersave) - running
    };
    if free < node.requests@.len() {
        free
    } else {
        node.requests@.len() as int
    }
}

/// Whether `after` is `before` after a request has completed.
///
/// A request that ran on a node that does not exist is ignored. Else the
/// job consumes electricity unless power is being saved; a request that is
/// not malicious adds its operations to its service and earns
/// [`revenue_of`], and counts as fulfilled; a malicious one counts as
/// failed. The node gets the memory of the request back. Its core goes to
/// the oldest request that waits to be routed, where
/// [`core_goes_to_routing`]; else the node gives the core back and starts
/// the oldest of its own waiting requests, [`started_count`] of them.
pub open spec fn processed(
    before: WorldState,
    engine: EngineView,
    time: Time,
    event: RequestEvent,
    node_num: u32,
    ram_required: Memory,
    after: WorldState,
    engine_after: EngineView,
) -> bool {
    if node_num >= before.nodes@.len() {
        after == before && engine_after == engine
    } else {
        let powersave = before.powersaving();
        let node = before.nodes@[node_num as int];
        let node_after = after.nodes@[node_num as int];
        let revenue = revenue_of(before, time, event);
        let started = started_count(node, powersave);
        &&& after.electricity == if powersave {
            before.electricity
        } else {
            consumed_more(before.electricity, ENERGY_PER_JOB)
        }
        &&& after.base_service == service_after_job(before, event, ServiceKind::Base)
        &&& after.super_service == service_after_job(before, event, ServiceKind::Super)
        &&& after.epic_service == service_after_job(before, event, ServiceKind::Epic)
        &&& after.awesome_service == service_after_job(before, event, ServiceKind::Awesome)
        &&& after.funds@ == if revenue > 0 {
            clamp_i64(before.funds@ + revenue)
        } else {
            before.funds@
        }
        &&& after.earned@ == if revenue > 0 {
            clamp_i64(before.earned@ + revenue)
        } else {
            before.earned@
        }
        &&& after.requests_failed == if event.bad {
            capped_sum(before.requests_failed as int, event.amount as int) as u64
        } else {
            before.requests_failed
        }
        &&& engine_after.failed == if event.bad {
            capped_sum(engine.failed as int, event.amount as int) as u64
        } else {
            engine.failed
        }
        &&& engine_after.fulfilled == if event.bad {
            engine.fulfilled
        } else {
            capped_sum(engine.fulfilled as int, event.amount as int) as u64
        }
        &&& nodes_kept_but(before.nodes@, after.nodes@, node_num as int)
        &&& node_after.same_hardware(&node)
        &&& node_after.ram_reserved == node.ram_reserved
        &&& node_after.ram_usage@ == usage_after_release(node, ram_required@)
        &&& if core_goes_to_routing(before, engine, node_num) {
            &&& node_after.processing == node.processing
            &&& node_after.requests@ == node.requests@
            &&& engine_after.waiting == engine.waiting.skip(1)
            &&& engine_after.queue == with_event(
                engine.queue,
                rerouted_event(before, event.timestamp, node_num, engine.waiting[0]),
            )
        } else {
            &&& node_after.processing == (if node.processing > 0 {
                node.processing - 1
            } else {
                0
            }) + started
            &&& node_after.requests@ == node.requests@.skip(started)
            &&& engine_after.waiting == engine.waiting
            &&& engine_after.queue == with_events(
                engine.queue,
                started_events(before, event.timestamp, node_num, started),
            )
        }
        &&& after == (WorldState {
            nodes: after.nodes,
            electricity: after.electricity,
            base_service: after.base_service,
            super_service: after.super_service,
            epic_service: after.epic_service,
            awesome_service: after.awesome_service,
            funds: after.funds,
            earned: after.earned,
            requests_failed: after.requests_failed,
            ..before
        })
        &&& engine_after == (EngineView {
            queue: engine_after.queue,
            waiting: engine_after.waiting,
            failed: engine_after.failed,
            fulfilled: engine_after.fulfilled,
            ..engine
        })
    }
}

impl WorldState {
    /// What a completed request earns.
    pub fn revenue(&self, time: Time, event: &RequestEvent) -> (revenue: Money)
        requires
            self.is_sound(),
        ensures
            revenue@ == revenue_of(*self, time, *event),
    {
        let info = self.service_by_kind(event.service);
        if event.bad {
            return Money::zero();
        }
        match event.user_spec_id {
            None => info.entitlement,
            Some(id) => match self.user_spec(id) {
                None => info.entitlement,
                Some(spec) => if spec.is_paying(time) {
                    info.price.saturating_times(event.amount as i64).saturating_plus(
                        info.entitlement,
                    )
                } else {
                    info.entitlement
                },
            },
        }
    }

    /// Adds the operations of a completed request to its service, unless
    /// the request is malicious.
    pub fn credit(&mut self, event: &RequestEvent)
        ensures
            *final(self) == (WorldState {
                base_service: service_after_job(*old(self), *event, ServiceKind::Base),
                super_service: service_after_job(*old(self), *event, ServiceKind::Super),
                epic_service: service_after_job(*old(self), *event, ServiceKind::Epic),
                awesome_service: service_after_job(*old(self), *event, ServiceKind::Awesome),
                ..*old(self)
            }),
    {
        if !event.bad {
            let info = self.service_by_kind(event.service);
            self.set_service(
                event.service,
                ServiceInfo {
                    total: Ops(crate::money::saturating_add_i64(info.total.0, event.amount as i64)),
                    available: Ops(
                        crate::money::saturating_add_i64(info.available.0, event.amount as i64),
                    ),
                    ..info
                },
            );
        }
    }

    /// Books a completed request: the electricity of the job, and the
    /// operations and the revenue of a request that is not malicious.
    pub fn settle(&mut self, time: Time, event: &RequestEvent)
        requires
            old(self).is_sound(),
        ensures
            final(self).is_sound(),
            final(self).electricity == if old(self).powersaving() {
                old(self).electricity
            } else {
                consumed_more(old(self).electricity, ENERGY_PER_JOB)
            },
            final(self).base_service == service_after_job(*old(self), *event, ServiceKind::Base),
            final(self).super_service == service_after_job(*old(self), *event, ServiceKind::Super),
            final(self).epic_service == service_after_job(*old(self), *event, ServiceKind::Epic),
            final(self).awesome_service == service_after_job(
                *old(self),
                *event,
                ServiceKind::Awesome,
            ),
            final(self).funds@ == if revenue_of(*old(self), time, *event) > 0 {
                clamp_i64(old(self).funds@ + revenue_of(*old(self), time, *event))
            } else {
                old(self).funds@
            },
            final(self).earned@ == if revenue_of(*old(self), time, *event) > 0 {
                clamp_i64(old(self).earned@ + revenue_of(*old(self), time, *event))
            } else {
                old(self).earned@
            },
            *final(self) == (WorldState {
                electricity: final(self).electricity,
                base_service: final(self).base_service,
                super_service: final(self).super_service,
                epic_service: final(self).epic_service,
                awesome_service: final(self).awesome_service,
                funds: final(self).funds,
                earned: final(self).earned,
                ..*old(self)
            }),
    {
        let revenue = self.revenue(time, event);
        if !self.is_powersaving() {
            self.electricity.add_consumption(ENERGY_PER_JOB);
        }
        self.credit(event);
        if revenue.0 > 0 {
            self.funds = self.funds.saturating_plus(revenue);
            self.earned = self.earned.saturating_plus(revenue);
        }
    }
}

impl GameEngine {
    /// Lets the node `node_num`, which has just finished a request, give
    /// its core back and start the oldest of its waiting requests.
    fn start_waiting(&mut self, state: &mut WorldState, start: Time, node_num: u32)
        requires
            old(state).is_sound(),
            node_num < old(state).nodes@.len(),
        ensures
            final(self).chance() == old(self).chance(),
            final(state).is_sound(),
            ({
                let node = old(state).nodes@[node_num as int];
                let node_after = final(state).nodes@[node_num as int];
                let started = started_count(node, old(state).powersaving());
                &&& nodes_kept_but(old(state).nodes@, final(state).nodes@, node_num as int)
                &&& node_after.same_hardware(&node)
                &&& node_after.ram_reserved == node.ram_reserved
                &&& node_after.ram_usage == node.ram_usage
                &&& node_after.processing == (if node.processing > 0 {
                    node.processing - 1
                } else {
                    0
                }) + started
                &&& node_after.requests@ == node.requests@.skip(started)
                &&& final(self)@.queue == with_events(
                    old(self)@.queue,
                    started_events(*old(state), start, node_num, started),
                )
            }),
            *final(state) == (WorldState { nodes: final(state).nodes, ..*old(state) }),
            final(self)@ == (EngineView { queue: final(self)@.queue, ..old(self)@ }),
    {
        let powersave = state.is_powersaving();
        let software_level = state.software_level;
        let released: u32 = {
            let node = &mut state.nodes[node_num as usize];
            if node.processing > 0 {
                node.processing = node.processing - 1;
            }
            node.processing
        };
        let free: u32 = state.nodes[node_num as usize].free_cores(powersave);
        let ghost node0 = old(state).nodes@[node_num as int];
        let ghost total = started_count(node0, powersave);
        let mut started: u32 = 0;
        proof {
            assert(started_events(*old(state), start, node_num, 0) =~= Seq::<RequestEvent>::empty());
            assert(node0.requests@.skip(0) =~= node0.requests@);
        }
        while started < free && state.nodes[node_num as usize].requests.len() > 0
            invariant
                old(state).is_sound(),
                state.is_sound(),
                node_num < old(state).nodes@.len(),
                node0 == old(state).nodes@[node_num as int],
                powersave == old(state).powersaving(),
                software_level == old(state).software_level,
                total == started_count(node0, powersave),
                free == if released >= node0.effective_cores(powersave) {
                    0
                } else {
                    node0.effective_cores(powersave) - released
                },
                released == if node0.processing > 0 {
                    node0.processing - 1
                } else {
                    0
                },
                0 <= started <= free,
                started <= node0.requests@.len(),
                nodes_kept_but(old(state).nodes@, state.nodes@, node_num as int),
                state.nodes@[node_num as int].same_hardware(&node0),
                state.nodes@[node_num as int].ram_reserved == node0.ram_reserved,
                state.nodes@[node_num as int].ram_usage == node0.ram_usage,
                state.nodes@[node_num as int].processing == released + started,
                state.nodes@[node_num as int].requests@ == node0.requests@.skip(started as int),
                self@.queue == with_events(
                    old(self)@.queue,
                    started_events(*old(state), start, node_num, started as int),
                ),
                *state == (WorldState { nodes: state.nodes, ..*old(state) }),
                self@ == (EngineView { queue: self@.queue, ..old(self)@ }),
                self.chance() == old(self).chance(),
            decreases free - started,
        {
            let request: WaitingRequest = state.nodes[node_num as usize].requests[0];
            let bad: bool = match request.user_spec_id {
                None => false,
                Some(id) => match state.user_spec(id) {
                    None => false,
                    Some(spec) => spec.bad,
                },
            };
            let duration: u32 = state.nodes[node_num as usize].processing_time(
                request.service,
                software_level,
                request.amount,
                false,
                false,
            );
            {
                let node = &mut state.nodes[node_num as usize];
                let taken = node.requests.pop_front();
                node.processing = node.processing + 1;
            }
            proof {
                assert(request == node0.requests@[started as int]);
                assert(node0.requests@.skip(started as int).subrange(
                    1,
                    node0.requests@.skip(started as int).len() as int,
                ) =~= node0.requests@.skip(started as int + 1));
                let events = started_events(*old(state), start, node_num, started as int + 1);
                assert(events.drop_last() =~= started_events(
                    *old(state),
                    start,
                    node_num,
                    started as int,
                ));
            }
            self.queue.push(
                RequestEvent {
                    timestamp: time_plus(start, duration as u64),
                    user_spec_id: request.user_spec_id,
                    amount: request.amount,
                    service: request.service,
                    bad,
                    kind: RequestEventStage::RequestProcessed {
                        node_num,
                        ram_required: request.mem_required,
                    },
                },
            );
            started = started + 1;
        }
    }

    /// Gives the core that a request has left on the node `node_num` to the
    /// oldest request that waits to be routed.
    fn route_waiting(&mut self, state: &WorldState, start: Time, node_num: u32)
        requires
            state.is_sound(),
            node_num < state.nodes@.len(),
            old(self)@.waiting.len() > 0,
        ensures
            final(self).chance() == old(self).chance(),
            final(self)@ == (EngineView {
                waiting: old(self)@.waiting.skip(1),
                queue: with_event(
                    old(self)@.queue,
                    rerouted_event(*state, start, node_num, old(self)@.waiting[0]),
                ),
                ..old(self)@
            }),
    {
        let taken = self.waiting_queue.pop_front();
        assert(self.waiting_queue@ =~= old(self).waiting_queue@.skip(1));
        if let Some(request) = taken {
            let duration = state.nodes[node_num as usize].routing_time(request.amount);
            self.queue.push(
                RequestEvent {
                    timestamp: time_plus(start, duration as u64),
                    user_spec_id: request.user_spec_id,
                    amount: request.amount,
                    service: request.service,
                    bad: request.bad,
                    kind: RequestEventStage::RequestRouted { node_num },
                },
            );
        }
    }

    /// Books a request that has completed on the node `node_num`, where it
    /// held `ram_required`, and gives its core to the next request.
    pub fn process_processed(
        &mut self,
        state: &mut WorldState,
        time: Time,
        event: RequestEvent,
        node_num: u32,
        ram_required: Memory,
    )
        requires
            old(state).is_sound(),
        ensures
            final(self).chance() == old(self).chance(),
            final(state).is_sound(),
            processed(
                *old(state),
                old(self)@,
                time,
                event,
                node_num,
                ram_required,
                *final(state),
                final(self)@,
            ),
    {
        if node_num as usize >= state.nodes.len() {
            return;
        }
        state.settle(time, &event);
        if event.bad {
            self.count_failed(state, event.amount);
        } else {
            self.recent_requests_fulfilled = capped_add(
                self.recent_requests_fulfilled,
                event.amount as u64,
            );
        }
        {
            let node = &mut state.nodes[node_num as usize];
            node.release(ram_required);
        }
        let ghost settled = *state;
        proof {
            let node = old(state).nodes@[node_num as int];
            assert(settled.nodes@[node_num as int].requests == node.requests);
            assert(started_count(settled.nodes@[node_num as int], settled.powersaving())
                == started_count(node, old(state).powersaving()));
            assert(started_events(
                settled,
                event.timestamp,
                node_num,
                started_count(node, old(state).powersaving()),
            ) =~= started_events(
                *old(state),
                event.timestamp,
                node_num,
                started_count(node, old(state).powersaving()),
            ));
        }
        if self.waiting_queue.len() > 0 && (node_num == 0 || state.routing_level
            == RoutingLevel::Distributed) {
            self.route_waiting(state, event.timestamp, node_num);
        } else {
            self.start_waiting(state, event.timestamp, node_num);
        }
    }
}

} // verus!
