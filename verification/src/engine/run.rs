//! The game in motion: steps, one event at a time, and updates that make
//! the steps that are due.

use vstd::prelude::*;

use crate::engine::{
    decided, diagnostic_of, Arrival, Diagnostic, EngineView, GameEngine, RoutedRolls,
};
use crate::engine::arrival::{
    arrived, first_event, next_arrival_event, rearm_of, routed_event, Rearm,
};
use crate::engine::clock::clock_set;
use crate::engine::completion::{
    core_goes_to_routing, processed, rerouted_event, started_count, started_events,
};
use crate::engine::handover::{nodes_after_routing, processed_event, request_of, routed};
use crate::node::processing_duration;
use crate::queue::{with_event, with_events, RequestEvent, RequestEventStage};
use crate::routing::{routing_of, RoutingDecision};
use crate::sampling::{roll_succeeds, Chance};
use crate::service::ServiceKind;
use crate::state::{cache_hit_chances, WorldState};
use crate::Time;

verus! {

/// One step of the game: the next event is taken out and its request is
/// carried one stage on, with whatever chance has decided. Whether
/// `after` and `engine_after` can come of `before` and `engine` by such a
/// step at `time`.
pub open spec fn stepped(
    before: WorldState,
    engine: EngineView,
    time: Time,
    arrival: Arrival,
    after: WorldState,
    engine_after: EngineView,
) -> bool {
    let event = engine.queue[0];
    let popped = EngineView { queue: engine.queue.skip(1), ..engine };
    &&& engine.queue.len() > 0
    &&& match event.kind {
        RequestEventStage::RequestArrived => exists|target: u32|
            target < before.nodes@.len() && #[trigger] arrived(
                before,
                popped,
                time,
                event,
                target,
                arrival,
                after,
                engine_after,
            ),
        RequestEventStage::RequestRouted { node_num } => exists|rolls: RoutedRolls|
            rolls.target < before.nodes@.len() && #[trigger] routed(
                before,
                popped,
                event,
                node_num,
                rolls,
                after,
                engine_after,
            ),
        RequestEventStage::RequestProcessed { node_num, ram_required } => processed(
            before,
            popped,
            time,
            event,
            node_num,
            ram_required,
            after,
            engine_after,
        ),
    }
}

/// Whether `event` names no node or a node below `count`.
pub open spec fn names_node_below(event: RequestEvent, count: int) -> bool {
    match event.kind {
        RequestEventStage::RequestArrived => true,
        RequestEventStage::RequestRouted { node_num } => node_num < count,
        RequestEventStage::RequestProcessed { node_num, ram_required } => node_num < count,
    }
}

/// Whether `after`, `engine_after` and `chance_after` are what one step of
/// the game makes of `before`, `engine` and the generator `chance`: the
/// next event is taken out, and its request is carried one stage on as
/// [`decided`] says.
pub open spec fn step_decided(
    before: WorldState,
    engine: EngineView,
    chance: Chance,
    time: Time,
    arrival: Arrival,
    after: WorldState,
    engine_after: EngineView,
    chance_after: Chance,
) -> bool {
    engine.queue.len() > 0 && decided(
        before,
        EngineView { queue: engine.queue.skip(1), ..engine },
        chance,
        time,
        engine.queue[0],
        arrival,
        after,
        engine_after,
        chance_after,
    )
}

/// Whether every pending event that names a node names one that exists.
pub open spec fn nodes_known(state: WorldState, engine: EngineView) -> bool {
    forall|i: int|
        0 <= i < engine.queue.len() ==> names_node_below(
            #[trigger] engine.queue[i],
            state.nodes@.len() as int,
        )
}

/// An event of a queue after a push is the event that was pushed or an
/// event that was there before.
pub proof fn lemma_pushed_members(events: Seq<RequestEvent>, event: RequestEvent, index: int)
    requires
        0 <= index < with_event(events, event).len(),
    ensures
        with_event(events, event).len() == events.len() + 1,
        with_event(events, event)[index] == event || exists|j: int|
            0 <= j < events.len() && events[j] == with_event(events, event)[index],
{
    crate::queue::lemma_arrival_index_bounds(events, event.timestamp);
    let at = crate::queue::arrival_index(events, event.timestamp);
    if index < at {
        assert(events[index] == with_event(events, event)[index]);
    } else if index > at {
        assert(events[index - 1] == with_event(events, event)[index]);
    }
}

/// Pushing an event that names a node that exists keeps every pending
/// event naming nodes that exist.
pub proof fn lemma_push_keeps_nodes_known(
    events: Seq<RequestEvent>,
    event: RequestEvent,
    count: int,
)
    requires
        forall|i: int| 0 <= i < events.len() ==> names_node_below(#[trigger] events[i], count),
        names_node_below(event, count),
    ensures
        forall|i: int|
            0 <= i < with_event(events, event).len() ==> names_node_below(
                #[trigger] with_event(events, event)[i],
                count,
            ),
{
    assert forall|i: int| 0 <= i < with_event(events, event).len() implies names_node_below(
        #[trigger] with_event(events, event)[i],
        count,
    ) by {
        lemma_pushed_members(events, event, i);
    }
}

/// Pushing events that name nodes that exist keeps every pending event
/// naming nodes that exist.
pub proof fn lemma_pushes_keep_nodes_known(
    events: Seq<RequestEvent>,
    pushed: Seq<RequestEvent>,
    count: int,
)
    requires
        forall|i: int| 0 <= i < events.len() ==> names_node_below(#[trigger] events[i], count),
        forall|i: int| 0 <= i < pushed.len() ==> names_node_below(#[trigger] pushed[i], count),
    ensures
        forall|i: int|
            0 <= i < with_events(events, pushed).len() ==> names_node_below(
                #[trigger] with_events(events, pushed)[i],
                count,
            ),
    decreases pushed.len(),
{
    if pushed.len() > 0 {
        let front = pushed.drop_last();
        assert forall|i: int| 0 <= i < front.len() implies names_node_below(
            #[trigger] front[i],
            count,
        ) by {
            assert(front[i] == pushed[i]);
        }
        lemma_pushes_keep_nodes_known(events, front, count);
        assert(names_node_below(pushed[pushed.len() - 1], count));
        lemma_push_keeps_nodes_known(with_events(events, front), pushed.last(), count);
    }
}

/// A step of the game keeps every pending event naming nodes that exist.
pub proof fn lemma_step_keeps_nodes_known(
    before: WorldState,
    engine: EngineView,
    time: Time,
    arrival: Arrival,
    after: WorldState,
    engine_after: EngineView,
)
    requires
        before.is_sound(),
        nodes_known(before, engine),
        stepped(before, engine, time, arrival, after, engine_after),
    ensures
        nodes_known(after, engine_after),
        after.nodes@.len() == before.nodes@.len(),
{
    let event = engine.queue[0];
    let popped = EngineView { queue: engine.queue.skip(1), ..engine };
    let count = before.nodes@.len() as int;
    assert(names_node_below(event, count));
    assert forall|i: int| 0 <= i < popped.queue.len() implies names_node_below(
        #[trigger] popped.queue[i],
        count,
    ) by {
        assert(popped.queue[i] == engine.queue[i + 1]);
    }
    match event.kind {
        RequestEventStage::RequestArrived => {
            let target = choose|target: u32|
                target < before.nodes@.len() && #[trigger] arrived(
                    before,
                    popped,
                    time,
                    event,
                    target,
                    arrival,
                    after,
                    engine_after,
                );
            let routing = routing_of(before, popped.waiting.len() as int, event.amount, target);
            let routed_queue = match routing {
                RoutingDecision::Route { node, duration, takes_core } => with_event(
                    popped.queue,
                    routed_event(event, duration, node),
                ),
                _ => popped.queue,
            };
            match routing {
                RoutingDecision::Route { node, duration, takes_core } => {
                    lemma_push_keeps_nodes_known(
                        popped.queue,
                        routed_event(event, duration, node),
                        count,
                    );
                },
                _ => {},
            }
            match rearm_of(before, time, event) {
                Rearm::Schedule { service, bad } => {
                    lemma_push_keeps_nodes_known(
                        routed_queue,
                        next_arrival_event(event, arrival, service, bad),
                        count,
                    );
                },
                _ => {},
            }
        },
        RequestEventStage::RequestRouted { node_num } => {
            let rolls = choose|rolls: RoutedRolls|
                rolls.target < before.nodes@.len() && #[trigger] routed(
                    before,
                    popped,
                    event,
                    node_num,
                    rolls,
                    after,
                    engine_after,
                );
            let nodes = nodes_after_routing(before, node_num as int);
            let node = nodes[rolls.target as int];
            let cache_hit = roll_succeeds(
                rolls.cache,
                cache_hit_chances()[before.cache_level as int] as u32,
            );
            let duration = processing_duration(
                node.cpu_speed as int,
                event.service,
                before.software_level as int,
                event.amount as int,
                before.powersaving(),
                cache_hit,
            );
            lemma_push_keeps_nodes_known(
                popped.queue,
                processed_event(event, rolls.target, duration as u32, request_of(event).mem_required),
                count,
            );
        },
        RequestEventStage::RequestProcessed { node_num, ram_required } => {
            if core_goes_to_routing(before, popped, node_num) {
                lemma_push_keeps_nodes_known(
                    popped.queue,
                    rerouted_event(before, event.timestamp, node_num, popped.waiting[0]),
                    count,
                );
            } else {
                let started = started_count(before.nodes@[node_num as int], before.powersaving());
                lemma_pushes_keep_nodes_known(
                    popped.queue,
                    started_events(before, event.timestamp, node_num, started),
                    count,
                );
            }
        },
    }
}

impl GameEngine {
    /// Takes out the next event, if it is due at `time`, and carries its
    /// request one stage on (see [`GameEngine::process_event`]). Returns the
    /// event and what it has to tell, or `None` where nothing was due and
    /// nothing has changed.
    pub fn step(&mut self, state: &mut WorldState, time: Time, arrival: Arrival) -> (event: Option<
        (RequestEvent, Diagnostic),
    >)
        requires
            old(state).is_sound(),
        ensures
            final(state).is_sound(),
            event == if old(self)@.queue.len() > 0 && old(self)@.queue[0].timestamp <= time {
                Some((old(self)@.queue[0], diagnostic_of(*old(state), old(self)@.queue[0])))
            } else {
                None
            },
            event is None ==> *final(state) == *old(state) && final(self)@ == old(self)@,
            event is None ==> final(self).chance() == old(self).chance(),
            event is Some ==> stepped(
                *old(state),
                old(self)@,
                time,
                arrival,
                *final(state),
                final(self)@,
            ),
            event is Some ==> step_decided(
                *old(state),
                old(self)@,
                old(self).chance(),
                time,
                arrival,
                *final(state),
                final(self)@,
                final(self).chance(),
            ),
            nodes_known(*old(state), old(self)@) ==> nodes_known(*final(state), final(self)@),
    {
        match self.pop_due(time) {
            Some(event) => {
                let diagnostic = self.process_event(state, time, event, arrival);
                proof {
                    assert(stepped(*old(state), old(self)@, time, arrival, *state, self@));
                    if nodes_known(*old(state), old(self)@) {
                        lemma_step_keeps_nodes_known(
                            *old(state),
                            old(self)@,
                            time,
                            arrival,
                            *state,
                            self@,
                        );
                    }
                }
                Some((event, diagnostic))
            },
            None => None,
        }
    }
}

/// Whether an event is due at `time`: the next event is to be processed
/// no later.
pub open spec fn has_due(engine: EngineView, time: Time) -> bool {
    engine.queue.len() > 0 && engine.queue[0].timestamp <= time
}

/// Whether `arrival` may be the arrival with which a step is made from
/// `state` and `engine`: where the step lets a cohort schedule its next
/// request, `sampled` holds of the service of the cohort and the arrival.
pub open spec fn arrival_allowed(
    sampled: spec_fn(ServiceKind, Arrival) -> bool,
    state: WorldState,
    engine: EngineView,
    time: Time,
    arrival: Arrival,
) -> bool {
    engine.queue[0].kind is RequestArrived ==> match rearm_of(state, time, engine.queue[0]) {
        Rearm::Schedule { service, bad } => sampled(service, arrival),
        _ => true,
    }
}

/// How many diagnostics the step from `state` and `engine` gives: one where
/// its event names a cohort or a node that is not there, else none.
pub open spec fn telling(state: WorldState, engine: EngineView) -> nat {
    if diagnostic_of(state, engine.queue[0]) is Clear {
        0
    } else {
        1
    }
}

/// Whether `after`, `engine_after` and `chance_after` come of `before`,
/// `engine` and the generator `chance` by `steps` steps of the game at
/// `time`, each made from a sound state with an event that was due and with
/// an arrival that `sampled` allows, and `told` of the steps had an event
/// that names a cohort or a node that is not there.
pub open spec fn stepped_times(
    sampled: spec_fn(ServiceKind, Arrival) -> bool,
    before: WorldState,
    engine: EngineView,
    chance: Chance,
    time: Time,
    steps: nat,
    told: nat,
    after: WorldState,
    engine_after: EngineView,
    chance_after: Chance,
) -> bool
    decreases steps,
{
    if steps == 0 {
        after == before && engine_after == engine && chance_after == chance && told == 0
    } else {
        exists|mid: WorldState, engine_mid: EngineView, chance_mid: Chance, arrival: Arrival|
            stepped_times(
                sampled,
                before,
                engine,
                chance,
                time,
                (steps - 1) as nat,
                (told - telling(mid, engine_mid)) as nat,
                mid,
                engine_mid,
                chance_mid,
            ) && mid.is_sound() && told >= telling(mid, engine_mid) && has_due(engine_mid, time)
                && arrival_allowed(
                sampled,
                mid,
                engine_mid,
                time,
                arrival,
            ) && stepped(mid, engine_mid, time, arrival, after, engine_after)
                && #[trigger] step_decided(
                mid,
                engine_mid,
                chance_mid,
                time,
                arrival,
                after,
                engine_after,
                chance_after,
            )
    }
}

/// How an update has ended.
#[derive(Debug, Clone, Copy, PartialEq, Eq, Structural)]
pub struct UpdateOutcome {
    /// how many events were processed
    pub events: u32,
    /// how many of these events named a cohort or a node that is not there
    /// (see [`Diagnostic`])
    pub stale: u32,
    /// whether every event that was due has been processed, and the clock
    /// has been set
    pub finished: bool,
    /// whether the game asks to be saved
    pub save: bool,
}

/// Whether `after`, `engine_after`, `chance_after` and `outcome` come of an
/// update of `before`, `engine` and the generator `chance` to `time` that
/// processes no more than `budget` events, with arrivals that `sampled`
/// allows.
///
/// The update makes steps while an event is due. Where it comes to an end
/// within its budget, the clock is set (see [`clock_set`]); else the update
/// stops after `budget` steps, and the clock stays.
pub open spec fn updated(
    sampled: spec_fn(ServiceKind, Arrival) -> bool,
    before: WorldState,
    engine: EngineView,
    chance: Chance,
    time: Time,
    budget: u32,
    outcome: UpdateOutcome,
    after: WorldState,
    engine_after: EngineView,
    chance_after: Chance,
) -> bool {
    exists|mid: WorldState, engine_mid: EngineView| #[trigger]
        stepped_times(
            sampled,
            before,
            engine,
            chance,
            time,
            outcome.events as nat,
            outcome.stale as nat,
            mid,
            engine_mid,
            chance_after,
        ) && {
            &&& outcome.events <= budget
            &&& outcome.finished == !has_due(engine_mid, time)
            &&& if outcome.finished {
                clock_set(mid, engine_mid, time, after, engine_after, outcome.save)
            } else {
                &&& outcome.events == budget
                &&& !outcome.save
                &&& after == mid
                &&& engine_after == engine_mid
            }
        }
}

impl GameEngine {
    /// Advances the game to `time`: processes the events that are due, one
    /// after the other, and then sets the clock (see
    /// [`GameEngine::finish_update`]). Whenever a request has arrived whose
    /// cohort goes on, `sample` is asked for the next arrival of the cohort,
    /// with the service of the cohort. No more than `budget` events are
    /// processed: where more are due, the update stops short of setting the
    /// clock and can be called again. The outcome counts the events that
    /// named a cohort or a node that is not there.
    pub fn update<F: Fn(ServiceKind) -> Arrival>(
        &mut self,
        state: &mut WorldState,
        time: Time,
        budget: u32,
        sample: F,
    ) -> (outcome: UpdateOutcome)
        requires
            old(state).is_sound(),
            forall|kind: ServiceKind| call_requires(sample, (kind,)),
        ensures
            final(state).is_sound(),
            updated(
                |service: ServiceKind, arrival: Arrival| call_ensures(sample, (service,), arrival),
                *old(state),
                old(self)@,
                old(self).chance(),
                time,
                budget,
                outcome,
                *final(state),
                final(self)@,
                final(self).chance(),
            ),
    {
        let ghost sampled = |service: ServiceKind, arrival: Arrival|
            call_ensures(sample, (service,), arrival);
        let mut events: u32 = 0;
        let mut stale: u32 = 0;
        let mut idle = false;
        while events < budget && !idle
            invariant
                state.is_sound(),
                events <= budget,
                forall|kind: ServiceKind| call_requires(sample, (kind,)),
                sampled == |service: ServiceKind, arrival: Arrival|
                    call_ensures(sample, (service,), arrival),
                stepped_times(
                    sampled,
                    *old(state),
                    old(self)@,
                    old(self).chance(),
                    time,
                    events as nat,
                    stale as nat,
                    *state,
                    self@,
                    self.chance(),
                ),
                stale <= events,
                idle ==> !has_due(self@, time),
            decreases budget - events + if idle { 0int } else { 1int },
        {
            match self.next_due(time) {
                Some(event) => {
                    let arrival = match (event.kind, Self::rearm(state, time, &event)) {
                        (RequestEventStage::RequestArrived, Rearm::Schedule { service, bad }) => {
                            sample(service)
                        },
                        _ => Arrival { delay: 0, amount: 0 },
                    };
                    let ghost mid = *state;
                    let ghost engine_mid = self@;
                    let ghost chance_mid = self.chance();
                    let ghost told_mid = stale as nat;
                    let made = self.step(state, time, arrival);
                    match made {
                        Some((_, Diagnostic::Clear)) => {},
                        Some(_) => {
                            stale = stale + 1;
                        },
                        None => {},
                    }
                    proof {
                        assert(stale == told_mid + telling(mid, engine_mid));
                        assert(has_due(engine_mid, time));
                        assert(arrival_allowed(sampled, mid, engine_mid, time, arrival));
                        assert(stepped(mid, engine_mid, time, arrival, *state, self@));
                        assert(step_decided(
                            mid,
                            engine_mid,
                            chance_mid,
                            time,
                            arrival,
                            *state,
                            self@,
                            self.chance(),
                        ));
                    }
                    events = events + 1;
                },
                None => {
                    idle = true;
                },
            }
        }
        let ghost mid = *state;
        let ghost engine_mid = self@;
        let ghost chance_mid = self.chance();
        if self.next_due(time).is_some() {
            let outcome = UpdateOutcome { events, stale, finished: false, save: false };
            assert(stepped_times(
                sampled,
                *old(state),
                old(self)@,
                old(self).chance(),
                time,
                outcome.events as nat,
                outcome.stale as nat,
                mid,
                engine_mid,
                chance_mid,
            ) && outcome.events == budget && has_due(engine_mid, time));
            return outcome;
        }
        let save = self.finish_update(state, time);
        let outcome = UpdateOutcome { events, stale, finished: true, save };
        assert(stepped_times(
            sampled,
            *old(state),
            old(self)@,
            old(self).chance(),
            time,
            outcome.events as nat,
            outcome.stale as nat,
            mid,
            engine_mid,
            chance_mid,
        ) && !has_due(engine_mid, time) && clock_set(
            mid,
            engine_mid,
            time,
            *state,
            self@,
            outcome.save,
        ));
        outcome
    }
}

/// The events of the first requests of the cohorts of `state` from the one
/// at `first` on, with the arrivals `arrivals`.
pub open spec fn first_events(state: WorldState, first: int, arrivals: Seq<Arrival>) -> Seq<
    RequestEvent,
> {
    Seq::new(
        arrivals.len(),
        |i: int| first_event(state, state.user_specs@[first + i], arrivals[i]),
    )
}

/// Whether each of the arrivals is one that `sampled` allows for the
/// service of its cohort: the cohort of `state` at its place, counted from
/// `first`.
pub open spec fn arrivals_sampled(
    sampled: spec_fn(ServiceKind, Arrival) -> bool,
    state: WorldState,
    first: int,
    arrivals: Seq<Arrival>,
) -> bool {
    forall|i: int|
        0 <= i < arrivals.len() ==> sampled(
            state.user_specs@[first + i].service,
            #[trigger] arrivals[i],
        )
}

impl GameEngine {
    /// Schedules the first request of every cohort from the one at `first`
    /// on. `sample` is asked for the arrival of each, with the service of
    /// the cohort.
    pub fn bootstrap_events_from<F: Fn(ServiceKind) -> Arrival>(
        &mut self,
        state: &WorldState,
        first: usize,
        sample: F,
    )
        requires
            forall|kind: ServiceKind| call_requires(sample, (kind,)),
        ensures
            final(self).chance() == old(self).chance(),
            first >= state.user_specs@.len() ==> final(self)@ == old(self)@,
            first < state.user_specs@.len() ==> exists|arrivals: Seq<Arrival>|
                arrivals.len() == state.user_specs@.len() - first && arrivals_sampled(
                    |service: ServiceKind, arrival: Arrival|
                        call_ensures(sample, (service,), arrival),
                    *state,
                    first as int,
                    arrivals,
                ) && final(self)@ == (EngineView {
                    queue: with_events(
                        old(self)@.queue,
                        #[trigger] first_events(*state, first as int, arrivals),
                    ),
                    ..old(self)@
                }),
    {
        if first >= state.user_specs.len() {
            return ;
        }
        let mut index: usize = first;
        let ghost mut arrivals: Seq<Arrival> = Seq::empty();
        proof {
            assert(first_events(*state, first as int, arrivals) =~= Seq::<RequestEvent>::empty());
        }
        while index < state.user_specs.len()
            invariant
                first <= index <= state.user_specs@.len(),
                forall|kind: ServiceKind| call_requires(sample, (kind,)),
                arrivals.len() == index - first,
                self.chance() == old(self).chance(),
                arrivals_sampled(
                    |service: ServiceKind, arrival: Arrival|
                        call_ensures(sample, (service,), arrival),
                    *state,
                    first as int,
                    arrivals,
                ),
                self@ == (EngineView {
                    queue: with_events(
                        old(self)@.queue,
                        first_events(*state, first as int, arrivals),
                    ),
                    ..old(self)@
                }),
            decreases state.user_specs@.len() - index,
        {
            let user_spec = state.user_specs[index];
            let arrival = sample(user_spec.service);
            proof {
                let longer = arrivals.push(arrival);
                assert(first_events(*state, first as int, longer).drop_last() =~= first_events(
                    *state,
                    first as int,
                    arrivals,
                ));
                assert(first_events(*state, first as int, longer).last() == first_event(
                    *state,
                    user_spec,
                    arrival,
                ));
                arrivals = longer;
            }
            self.bootstrap_events_for(state, &user_spec, arrival);
            index = index + 1;
        }
    }

    /// Schedules the first request of every cohort of `state`, as a game
    /// that was loaded needs it.
    pub fn bootstrap_events<F: Fn(ServiceKind) -> Arrival>(&mut self, state: &WorldState, sample: F)
        requires
            forall|kind: ServiceKind| call_requires(sample, (kind,)),
        ensures
            final(self).chance() == old(self).chance(),
            state.user_specs@.len() == 0 ==> final(self)@ == old(self)@,
            state.user_specs@.len() > 0 ==> exists|arrivals: Seq<Arrival>|
                arrivals.len() == state.user_specs@.len() && arrivals_sampled(
                    |service: ServiceKind, arrival: Arrival|
                        call_ensures(sample, (service,), arrival),
                    *state,
                    0,
                    arrivals,
                ) && final(self)@ == (EngineView {
                    queue: with_events(
                        old(self)@.queue,
                        #[trigger] first_events(*state, 0, arrivals),
                    ),
                    ..old(self)@
                }),
    {
        self.bootstrap_events_from(state, 0, sample);
    }
}

} // verus!
