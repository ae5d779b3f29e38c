//! The clock of the game, and the major update that is done once in a
//! period.

use vstd::prelude::*;

use crate::electricity::{
    bill_amount, capped_add, capped_sum, electricity_cost_levels, ELECTRICITY_BILL_PERIOD,
    Electricity,
};
use crate::engine::{EngineView, GameEngine};
use crate::money::{clamp_i64, Money};
use crate::node::{still_waiting, timed_out_amount, timed_out_memory, CloudNode};
use crate::state::WorldState;
use crate::Time;

verus! {

/// The time between two major updates, in time units.
pub const MAJOR_UPDATE_PERIOD: u64 = 2_500;

/// The time after which the ambient demand grows, in time units.
pub const INCREASE_DEMAND_PERIOD: u64 = 150_000;

/// The time after which the nodes give up the requests that have waited
/// too long, in time units.
pub const TIMEOUT_CLEANUP_PERIOD: u64 = 40_000;

/// The time after which the game asks to be saved, in time units.
pub const GAME_SAVE_PERIOD: u64 = 360_000;

/// The cost below which no bill is made out, in millicents.
pub const BILL_FLOOR: i64 = 50_000;

/// Whether the clock, going from `before` to `now`, has passed the end of a
/// period.
pub open spec fn crossed(before: Time, now: Time, period: u64) -> bool {
    now / period != before / period
}

/// The exec form of [`crossed`].
pub fn has_crossed(before: Time, now: Time, period: u64) -> (b: bool)
    requires
        period > 0,
    ensures
        b == crossed(before, now, period),
{
    now / period != before / period
}

/// The electricity figures after a major update at `time`: the window of
/// the consumption statistic is closed, and where a bill period has ended
/// and the cost is above the floor, a bill is made out.
pub open spec fn billed(electricity: Electricity, bill_due: bool, time: Time) -> Electricity {
    let closed = Electricity {
        recent_energy_consumed: 0,
        energy_consumption_rate: electricity.recent_energy_consumed,
        ..electricity
    };
    let cost = bill_amount(
        electricity_cost_levels()[electricity.cost_level as int],
        electricity.consumed as int,
    );
    if bill_due && cost > BILL_FLOOR {
        Electricity {
            total_due: Money(clamp_i64(electricity.total_due@ + cost) as i64),
            consumed: 0,
            last_bill_time: time,
            ..closed
        }
    } else {
        closed
    }
}

/// The operations that the requests stand for that have timed out in the
/// nodes at `time`.
pub open spec fn swept_amount(nodes: Seq<CloudNode>, time: Time) -> nat
    decreases nodes.len(),
{
    if nodes.len() == 0 {
        0
    } else {
        swept_amount(nodes.drop_last(), time) + timed_out_amount(nodes.last().requests@, time)
    }
}

/// Whether `after` is the node `before` after it has given up the requests
/// that have timed out at `time`, and has got their memory back.
pub open spec fn node_swept(before: CloudNode, after: CloudNode, time: Time) -> bool {
    &&& after.same_hardware(&before)
    &&& after.processing == before.processing
    &&& after.ram_reserved == before.ram_reserved
    &&& after.requests@ == still_waiting(before.requests@, time)
    &&& after.ram_usage@ == if before.ram_usage@ - timed_out_memory(before.requests@, time)
        < before.ram_reserved@ {
        before.ram_reserved@
    } else {
        before.ram_usage@ - timed_out_memory(before.requests@, time)
    }
}

/// The share of `part` in `total`, in thousandths.
pub open spec fn share(part: int, total: int) -> int {
    part * 1_000 / total
}

/// Whether `after` is `before` after the major update at `time`.
///
/// Where the clock has passed the end of its period, the ambient demand
/// grows by its rate, a bill is made out (see [`billed`]), and the nodes
/// give up the requests that have waited too long, which count as dropped.
/// Where the player may see them, the rates of dropped and failed requests
/// are taken from the counts since the last major update, unless nothing
/// was counted. Then the counts start anew.
pub open spec fn major_update(
    before: WorldState,
    engine: EngineView,
    time: Time,
    after: WorldState,
    engine_after: EngineView,
) -> bool {
    let sweep = crossed(before.time, time, TIMEOUT_CLEANUP_PERIOD);
    let swept: int = if sweep {
        swept_amount(before.nodes@, time) as int
    } else {
        0
    };
    let dropped = capped_sum(engine.dropped as int, swept);
    let total = engine.fulfilled + dropped + engine.failed;
    let rated = before.can_see_request_rates && total > 0;
    &&& after.demand == if crossed(before.time, time, INCREASE_DEMAND_PERIOD) {
        capped_sum(before.demand as int, before.demand_rate as int) as u64
    } else {
        before.demand
    }
    &&& after.electricity == billed(
        before.electricity,
        crossed(before.time, time, ELECTRICITY_BILL_PERIOD),
        time,
    )
    &&& if sweep {
        &&& after.nodes@.len() == before.nodes@.len()
        &&& forall|i: int|
            0 <= i < before.nodes@.len() ==> node_swept(
                before.nodes@[i],
                #[trigger] after.nodes@[i],
                time,
            )
    } else {
        after.nodes@ == before.nodes@
    }
    &&& after.requests_dropped == capped_sum(before.requests_dropped as int, swept)
    &&& engine_after == (EngineView {
        fulfilled: 0,
        dropped: 0,
        failed: 0,
        drop_rate: if rated {
            share(dropped, total) as u32
        } else {
            engine.drop_rate
        },
        failure_rate: if rated {
            share(engine.failed as int, total) as u32
        } else {
            engine.failure_rate
        },
        ..engine
    })
    &&& after == (WorldState {
        demand: after.demand,
        electricity: after.electricity,
        nodes: after.nodes,
        requests_dropped: after.requests_dropped,
        ..before
    })
}

/// Whether `after` is `before` after the clock was set to `time`, and
/// `save` says whether the game asks to be saved.
///
/// A time that lies before the clock changes nothing. Where the clock
/// passes the end of a major update period, the major update comes first;
/// the game asks to be saved where the clock passes the end of a save
/// period with it.
pub open spec fn clock_set(
    before: WorldState,
    engine: EngineView,
    time: Time,
    after: WorldState,
    engine_after: EngineView,
    save: bool,
) -> bool {
    if time < before.time {
        after == before && engine_after == engine && !save
    } else if crossed(before.time, time, MAJOR_UPDATE_PERIOD) {
        &&& major_update(before, engine, time, WorldState { time: before.time, ..after }, engine_after)
        &&& after.time == time
        &&& save == crossed(before.time, time, GAME_SAVE_PERIOD)
    } else {
        after == (WorldState { time, ..before }) && engine_after == engine && !save
    }
}

impl WorldState {
    /// Lets every node give up the requests that have timed out at `time`.
    /// Returns the operations that they stood for (held at the largest
    /// number that can be represented).
    pub fn sweep_timeouts(&mut self, time: Time) -> (swept: u64)
        requires
            old(self).is_sound(),
        ensures
            final(self).is_sound(),
            swept == capped_sum(0, swept_amount(old(self).nodes@, time) as int),
            final(self).nodes@.len() == old(self).nodes@.len(),
            forall|i: int|
                0 <= i < old(self).nodes@.len() ==> node_swept(
                    old(self).nodes@[i],
                    #[trigger] final(self).nodes@[i],
                    time,
                ),
            *final(self) == (WorldState { nodes: final(self).nodes, ..*old(self) }),
    {
        let mut swept: u64 = 0;
        let mut i: usize = 0;
        assert(self.nodes@.take(0) =~= Seq::<CloudNode>::empty());
        while i < self.nodes.len()
            invariant
                0 <= i <= self.nodes@.len(),
                self.nodes@.len() == old(self).nodes@.len(),
                self.is_sound(),
                swept == capped_sum(0, swept_amount(old(self).nodes@.take(i as int), time) as int),
                forall|j: int|
                    0 <= j < i ==> node_swept(old(self).nodes@[j], #[trigger] self.nodes@[j], time),
                forall|j: int| i <= j < self.nodes@.len() ==> self.nodes@[j] == old(self).nodes@[j],
                *self == (WorldState { nodes: self.nodes, ..*old(self) }),
            decreases self.nodes@.len() - i,
        {
            assert(old(self).nodes@.take(i as int + 1).drop_last() =~= old(self).nodes@.take(
                i as int,
            ));
            let node = &mut self.nodes[i];
            let dropped = node.clear_timedout_requests(time);
            swept = capped_add(swept, dropped);
            i = i + 1;
        }
        assert(old(self).nodes@.take(old(self).nodes@.len() as int) =~= old(self).nodes@);
        swept
    }
}

/// Computes [`share`] for a part of a total that is not zero.
fn share_of(part: u64, total: u128) -> (s: u32)
    requires
        0 < total,
        part <= total,
    ensures
        s == share(part as int, total as int),
{
    let scaled: u128 = (part as u128) * 1_000;
    assert(scaled / total <= 1_000) by (nonlinear_arith)
        requires
            scaled == part * 1_000,
            part <= total,
            0 < total,
    ;
    (scaled / total) as u32
}

impl GameEngine {
    /// Does the major update at `time`: the heavier work that is done once
    /// in a period.
    pub fn update_major(&mut self, state: &mut WorldState, time: Time)
        requires
            old(state).is_sound(),
        ensures
            final(self).chance() == old(self).chance(),
            final(state).is_sound(),
            major_update(*old(state), old(self)@, time, *final(state), final(self)@),
    {
        if has_crossed(state.time, time, INCREASE_DEMAND_PERIOD) {
            state.demand = capped_add(state.demand, state.demand_rate);
        }
        state.electricity.calculate_consumption_rate();
        if has_crossed(state.time, time, ELECTRICITY_BILL_PERIOD) {
            let total_cost = state.electricity.check_bill();
            if total_cost.0 > BILL_FLOOR {
                state.electricity.emit_bill_for(total_cost, time);
            }
        }
        if has_crossed(state.time, time, TIMEOUT_CLEANUP_PERIOD) {
            let swept = state.sweep_timeouts(time);
            state.requests_dropped = capped_add(state.requests_dropped, swept);
            self.recent_requests_dropped = capped_add(self.recent_requests_dropped, swept);
        }
        if state.can_see_request_rates {
            let total: u128 = self.recent_requests_fulfilled as u128
                + self.recent_requests_dropped as u128 + self.recent_requests_failed as u128;
            if total > 0 {
                self.drop_rate = share_of(self.recent_requests_dropped, total);
                self.failure_rate = share_of(self.recent_requests_failed, total);
            }
        }
        self.recent_requests_fulfilled = 0;
        self.recent_requests_dropped = 0;
        self.recent_requests_failed = 0;
    }

    /// Sets the clock to `time`, once the events that are due at `time` have
    /// been processed, and does the major update where its period has
    /// ended. Returns whether the game asks to be saved.
    pub fn finish_update(&mut self, state: &mut WorldState, time: Time) -> (save: bool)
        requires
            old(state).is_sound(),
        ensures
            final(self).chance() == old(self).chance(),
            final(state).is_sound(),
            clock_set(*old(state), old(self)@, time, *final(state), final(self)@, save),
    {
        if time < state.time {
            return false;
        }
        let mut save = false;
        if has_crossed(state.time, time, MAJOR_UPDATE_PERIOD) {
            save = has_crossed(state.time, time, GAME_SAVE_PERIOD);
            self.update_major(state, time);
        }
        state.time = time;
        save
    }
}

} // verus!
