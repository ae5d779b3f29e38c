//! Request events and the queue that hands them out in the order of their
//! time.

use std::collections::VecDeque;
use vstd::prelude::*;

use crate::memory::Memory;
use crate::service::ServiceKind;
use crate::Time;

verus! {

/// How far a request has come.
#[derive(Debug, Clone, Copy, PartialEq, Eq, Structural)]
pub enum RequestEventStage {
    /// The request, or set of requests, has arrived at the system. With more
    /// than one node it may still have to be routed.
    RequestArrived,
    /// The request has been routed and waits to be taken up by a node.
    RequestRouted { node_num: u32 },
    /// A node has finished the request; `ram_required` is the memory that the
    /// request held in all.
    RequestProcessed { node_num: u32, ram_required: Memory },
}

/// A step in the life of a request, or of a set of requests bundled into
/// one, due at a point in time.
#[derive(Debug, Clone, Copy, PartialEq, Eq, Structural)]
pub struct RequestEvent {
    pub timestamp: Time,
    /// the cohort that the request comes from, or `None` where the player
    /// asked for it
    pub user_spec_id: Option<u32>,
    /// how many requests the event stands for
    pub amount: u32,
    pub service: ServiceKind,
    /// whether this is a malicious request, which fulfils nothing
    pub bad: bool,
    /// the stage of the request
    pub kind: RequestEventStage,
}

/// The time that lies `duration` after `timestamp`, held at the last time
/// that can be represented.
pub open spec fn time_after(timestamp: Time, duration: int) -> Time {
    if timestamp + duration > u64::MAX {
        u64::MAX
    } else {
        (timestamp + duration) as u64
    }
}

/// The exec form of [`time_after`].
pub fn time_plus(timestamp: Time, duration: u64) -> (t: Time)
    ensures
        t == time_after(timestamp, duration as int),
{
    timestamp.saturating_add(duration)
}

impl RequestEvent {
    pub fn new_arrived(
        timestamp: Time,
        user_spec_id: Option<u32>,
        amount: u32,
        service: ServiceKind,
        bad: bool,
    ) -> (event: Self)
        ensures
            event == (RequestEvent {
                timestamp,
                user_spec_id,
                amount,
                service,
                bad,
                kind: RequestEventStage::RequestArrived,
            }),
    {
        RequestEvent {
            timestamp,
            user_spec_id,
            amount,
            service,
            bad,
            kind: RequestEventStage::RequestArrived,
        }
    }

    /// The event of the same request having been routed to node `node_num`,
    /// `duration` later.
    pub fn into_routed(self, duration: u32, node_num: u32) -> (event: Self)
        ensures
            event == (RequestEvent {
                timestamp: time_after(self.timestamp, duration as int),
                kind: RequestEventStage::RequestRouted { node_num },
                ..self
            }),
    {
        RequestEvent {
            timestamp: time_plus(self.timestamp, duration as u64),
            user_spec_id: self.user_spec_id,
            amount: self.amount,
            service: self.service,
            bad: self.bad,
            kind: RequestEventStage::RequestRouted { node_num },
        }
    }

    /// The event of a routed request having been processed by node
    /// `node_num`, `duration` later.
    pub fn into_processed(self, node_num: u32, duration: u32, ram_required: Memory) -> (event: Self)
        requires
            self.kind is RequestRouted,
        ensures
            event == (RequestEvent {
                timestamp: time_after(self.timestamp, duration as int),
                kind: RequestEventStage::RequestProcessed { node_num, ram_required },
                ..self
            }),
    {
        RequestEvent {
            timestamp: time_plus(self.timestamp, duration as u64),
            user_spec_id: self.user_spec_id,
            amount: self.amount,
            service: self.service,
            bad: self.bad,
            kind: RequestEventStage::RequestProcessed { node_num, ram_required },
        }
    }
}

/// Whether no event stands before one that is due earlier.
pub open spec fn in_time_order(events: Seq<RequestEvent>) -> bool {
    forall|i: int, j: int|
        0 <= i <= j < events.len() ==> events[i].timestamp <= events[j].timestamp
}

/// Where an event due at `timestamp` goes in a queue: behind the last event
/// that is due no later.
pub open spec fn arrival_index(events: Seq<RequestEvent>, timestamp: Time) -> int
    decreases events.len(),
{
    if events.len() == 0 {
        0
    } else if events.last().timestamp <= timestamp {
        events.len() as int
    } else {
        arrival_index(events.drop_last(), timestamp)
    }
}

/// The queue after one more event has been pushed.
pub open spec fn with_event(events: Seq<RequestEvent>, event: RequestEvent) -> Seq<RequestEvent> {
    events.insert(arrival_index(events, event.timestamp), event)
}

/// The queue after all of `pushed` have been pushed on `events`, first to
/// last.
pub open spec fn with_events(events: Seq<RequestEvent>, pushed: Seq<RequestEvent>) -> Seq<
    RequestEvent,
>
    decreases pushed.len(),
{
    if pushed.len() == 0 {
        events
    } else {
        with_event(with_events(events, pushed.drop_last()), pushed.last())
    }
}

/// The place of a new event lies in the queue.
pub proof fn lemma_arrival_index_bounds(events: Seq<RequestEvent>, timestamp: Time)
    ensures
        0 <= arrival_index(events, timestamp) <= events.len(),
    decreases events.len(),
{
    if events.len() > 0 {
        lemma_arrival_index_bounds(events.drop_last(), timestamp);
    }
}

/// In a queue in time order the place of a new event is the one index that
/// has only events due no later before it and only later ones from it on.
pub proof fn lemma_arrival_index(events: Seq<RequestEvent>, timestamp: Time, index: int)
    requires
        in_time_order(events),
        0 <= index <= events.len(),
        forall|i: int| 0 <= i < index ==> events[i].timestamp <= timestamp,
        forall|i: int| index <= i < events.len() ==> events[i].timestamp > timestamp,
    ensures
        arrival_index(events, timestamp) == index,
    decreases events.len(),
{
    if events.len() > 0 && events.last().timestamp > timestamp {
        let front = events.drop_last();
        assert forall|i: int, j: int| 0 <= i <= j < front.len() implies front[i].timestamp
            <= front[j].timestamp by {
            assert(front[i] == events[i] && front[j] == events[j]);
        }
        assert forall|i: int| 0 <= i < index implies front[i].timestamp <= timestamp by {
            assert(front[i] == events[i]);
        }
        assert forall|i: int| index <= i < front.len() implies front[i].timestamp > timestamp by {
            assert(front[i] == events[i]);
        }
        lemma_arrival_index(front, timestamp, index);
    }
}

/// The place of a new event lies in the queue, behind every event that is
/// due no later and before every event that is due later.
pub proof fn lemma_arrival_index_splits(events: Seq<RequestEvent>, timestamp: Time)
    requires
        in_time_order(events),
    ensures
        0 <= arrival_index(events, timestamp) <= events.len(),
        forall|i: int|
            0 <= i < arrival_index(events, timestamp) ==> events[i].timestamp <= timestamp,
        forall|i: int|
            arrival_index(events, timestamp) <= i < events.len() ==> events[i].timestamp
                > timestamp,
    decreases events.len(),
{
    if events.len() > 0 {
        let front = events.drop_last();
        assert(in_time_order(front)) by {
            assert forall|i: int, j: int| 0 <= i <= j < front.len() implies front[i].timestamp
                <= front[j].timestamp by {
                assert(front[i] == events[i] && front[j] == events[j]);
            }
        }
        if events.last().timestamp > timestamp {
            lemma_arrival_index_splits(front, timestamp);
            let index = arrival_index(front, timestamp);
            assert forall|i: int| 0 <= i < index implies events[i].timestamp <= timestamp by {
                assert(front[i] == events[i]);
            }
            assert forall|i: int| index <= i < events.len() implies events[i].timestamp
                > timestamp by {
                if i < front.len() {
                    assert(front[i] == events[i]);
                }
            }
        } else {
            assert forall|i: int| 0 <= i < events.len() implies events[i].timestamp
                <= timestamp by {
                assert(events[i].timestamp <= events[events.len() - 1].timestamp);
            }
        }
    }
}

/// Pushing an event keeps a queue in time order, and the new event stands
/// behind the events of the same time that were there before it.
pub proof fn lemma_push_keeps_order(events: Seq<RequestEvent>, event: RequestEvent)
    requires
        in_time_order(events),
    ensures
        in_time_order(with_event(events, event)),
        with_event(events, event).len() == events.len() + 1,
        with_event(events, event).to_multiset() == events.to_multiset().insert(event),
        forall|i: int|
            0 <= i < events.len() && events[i].timestamp == event.timestamp ==> with_event(
                events,
                event,
            )[i] == events[i],
{
    lemma_arrival_index_splits(events, event.timestamp);
    let index = arrival_index(events, event.timestamp);
    let after = with_event(events, event);
    assert forall|i: int, j: int| 0 <= i <= j < after.len() implies after[i].timestamp
        <= after[j].timestamp by {
        if i < index && j > index {
            assert(after[i] == events[i]);
            assert(after[j] == events[j - 1]);
        }
    }
    vstd::seq_lib::to_multiset_insert(events, index, event);
    assert(after.to_multiset() =~= events.to_multiset().insert(event));
}

/// Whatever is pushed, and in whatever order, the queue hands out its events
/// by their time: of two events the one that is popped first is due no later
/// than the other.
pub proof fn lemma_pops_in_time_order(pushed: Seq<RequestEvent>)
    ensures
        in_time_order(with_events(Seq::empty(), pushed)),
        with_events(Seq::empty(), pushed).to_multiset() == pushed.to_multiset(),
    decreases pushed.len(),
{
    if pushed.len() == 0 {
        assert(pushed =~= Seq::empty());
    } else {
        lemma_pops_in_time_order(pushed.drop_last());
        lemma_push_keeps_order(with_events(Seq::empty(), pushed.drop_last()), pushed.last());
        vstd::seq_lib::to_multiset_build(pushed.drop_last(), pushed.last());
        assert(pushed =~= pushed.drop_last().push(pushed.last()));
    }
}

/// The pending request events, kept in the order of their time.
#[derive(Debug)]
pub struct RequestEventQueue {
    /// the time of the last process tick
    last_time: Time,
    queue: VecDeque<RequestEvent>,
}

impl View for RequestEventQueue {
    type V = Seq<RequestEvent>;

    /// The pending events, the next one first.
    closed spec fn view(&self) -> Seq<RequestEvent> {
        self.queue@
    }
}

impl RequestEventQueue {
    #[verifier::type_invariant]
    spec fn ordered(self) -> bool {
        in_time_order(self.queue@)
    }

    /// The time of the last process tick that the queue was told of.
    pub closed spec fn tick_time(&self) -> Time {
        self.last_time
    }

    /// A queue without events.
    pub fn new() -> (queue: Self)
        ensures
            queue@ == Seq::<RequestEvent>::empty(),
            queue.tick_time() == 0,
    {
        RequestEventQueue { last_time: 0, queue: VecDeque::new() }
    }

    /// How many events are pending.
    pub fn len(&self) -> (n: usize)
        ensures
            n == self@.len(),
            in_time_order(self@),
    {
        proof {
            use_type_invariant(self);
        }
        self.queue.len()
    }

    /// Puts `event` in the queue: behind every event that is due no later,
    /// and before every event that is due later.
    pub fn push(&mut self, event: RequestEvent)
        ensures
            final(self)@ == with_event(old(self)@, event),
            final(self).tick_time() == old(self).tick_time(),
            in_time_order(old(self)@),
            in_time_order(final(self)@),
    {
        proof {
            use_type_invariant(&*self);
        }
        let mut low: usize = 0;
        let mut high: usize = self.queue.len();
        while low < high
            invariant
                0 <= low <= high <= self.queue@.len(),
                in_time_order(self.queue@),
                forall|i: int| 0 <= i < low ==> self.queue@[i].timestamp <= event.timestamp,
                forall|i: int|
                    high <= i < self.queue@.len() ==> self.queue@[i].timestamp > event.timestamp,
            decreases high - low,
        {
            let middle: usize = low + (high - low) / 2;
            if self.queue[middle].timestamp <= event.timestamp {
                low = middle + 1;
            } else {
                high = middle;
            }
        }
        proof {
            lemma_arrival_index(self.queue@, event.timestamp, low as int);
            lemma_push_keeps_order(self.queue@, event);
        }
        // The events leave the struct while they are changed, so that the
        // struct is in order at every step.
        let mut events: VecDeque<RequestEvent> = VecDeque::new();
        core::mem::swap(&mut self.queue, &mut events);
        events.insert(low, event);
        core::mem::swap(&mut self.queue, &mut events);
    }

    /// The time at which the next event is due, or `None` where no event is
    /// pending.
    pub fn next_event_time(&self) -> (time: Option<Time>)
        ensures
            self@.len() == 0 ==> time is None,
            self@.len() > 0 ==> time == Some(self@[0].timestamp),
    {
        if self.queue.len() == 0 {
            None
        } else {
            Some(self.queue[0].timestamp)
        }
    }

    /// The next event, without taking it out.
    pub fn peek(&self) -> (event: Option<RequestEvent>)
        ensures
            self@.len() == 0 ==> event is None,
            self@.len() > 0 ==> event == Some(self@[0]),
    {
        if self.queue.len() == 0 {
            None
        } else {
            Some(self.queue[0])
        }
    }

    /// Takes out the next event: one that is due no later than any other in
    /// the queue. Gives `None`, and changes nothing, where the queue is empty.
    pub fn pop(&mut self) -> (event: Option<RequestEvent>)
        ensures
            old(self)@.len() == 0 ==> event is None && final(self)@ == old(self)@,
            old(self)@.len() > 0 ==> event == Some(old(self)@[0]) && final(self)@ == old(
                self,
            )@.skip(1),
            event is Some ==> forall|i: int|
                0 <= i < final(self)@.len() ==> event->0.timestamp <= final(self)@[i].timestamp,
            final(self).tick_time() == old(self).tick_time(),
            in_time_order(final(self)@),
    {
        proof {
            use_type_invariant(&*self);
        }
        let mut events: VecDeque<RequestEvent> = VecDeque::new();
        core::mem::swap(&mut self.queue, &mut events);
        let event = events.pop_front();
        assert(events@ =~= old(self).queue@.skip(1) || old(self).queue@.len() == 0);
        core::mem::swap(&mut self.queue, &mut events);
        event
    }

    pub fn last_time(&self) -> (time: Time)
        ensures
            time == self.tick_time(),
    {
        self.last_time
    }
}

} // verus!
