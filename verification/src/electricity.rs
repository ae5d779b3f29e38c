//! The electricity that the data center consumes, and the bills for it.

use vstd::prelude::*;

use crate::money::{clamp_i64, Money};
use crate::Time;

verus! {

/// The last level of the cost of electricity.
pub const MAX_ELECTRICITY_COST_LEVEL: u8 = 6;

/// What one completed job consumes, in hundredths of a milliWattever.
pub const ENERGY_PER_JOB: u64 = 100;

/// What one routing hop consumes, in hundredths of a milliWattever.
pub const ENERGY_PER_ROUTING: u64 = 1;

/// How many hundredths of a milliWattever make up one Wattever.
pub const ENERGY_UNITS_PER_WATTEVER: u64 = 100_000;

/// The time after which the electricity consumed is billed, in time units.
pub const ELECTRICITY_BILL_PERIOD: u64 = 2_500_000;

/// The price of one Wattever at each level of the cost of electricity, in
/// millicents.
pub open spec fn electricity_cost_levels() -> Seq<int> {
    seq![32_000, 29_000, 25_000, 18_000, 5_000, 500, 0]
}

/// The price of one Wattever at `level`.
pub fn electricity_cost(level: u8) -> (cost: Money)
    requires
        level <= MAX_ELECTRICITY_COST_LEVEL,
    ensures
        cost@ == electricity_cost_levels()[level as int],
        0 <= cost@ <= 32_000,
{
    match level {
        0 => Money::cents(32),
        1 => Money::cents(29),
        2 => Money::cents(25),
        3 => Money::cents(18),
        4 => Money::cents(5),
        5 => Money::dec_cents(5),
        _ => Money::zero(),
    }
}

/// The price of electricity never rises with the level.
pub proof fn lemma_electricity_cost_descends(lower: int, higher: int)
    requires
        0 <= lower <= higher <= 6,
    ensures
        electricity_cost_levels()[higher] <= electricity_cost_levels()[lower],
{
}

/// The sum of two counts, held at the largest count that can be
/// represented.
pub open spec fn capped_sum(a: int, b: int) -> int {
    if a + b > u64::MAX {
        u64::MAX as int
    } else {
        a + b
    }
}

/// Computes [`capped_sum`].
pub fn capped_add(a: u64, b: u64) -> (sum: u64)
    ensures
        sum == capped_sum(a as int, b as int),
{
    a.saturating_add(b)
}

/// What `consumed` hundredths of a milliWattever cost at `price` millicents
/// the Wattever: the part of a millicent is dropped, and the cost is held at
/// the largest amount of money that can be represented.
pub open spec fn bill_amount(price: int, consumed: int) -> int {
    clamp_i64(price * consumed / 100_000)
}

/// The electricity consumed, its cost, and what is due.
#[derive(Debug, Clone, Copy, PartialEq, Eq, Structural)]
pub struct Electricity {
    /// the level of the cost of electricity (see
    /// [`electricity_cost_levels`])
    pub cost_level: u8,
    /// the electricity consumed since the last bill, in hundredths of a
    /// milliWattever
    pub consumed: u64,
    /// the electricity consumed since the start, in the same unit
    pub total_consumed: u64,
    /// what is due for the bills that were not paid yet
    pub total_due: Money,
    /// the time of the last bill, or 0 where there was none yet
    pub last_bill_time: Time,
    /// the electricity consumed since the last major update (not persisted)
    pub recent_energy_consumed: u64,
    /// the electricity consumed between the last two major updates (not
    /// persisted)
    pub energy_consumption_rate: u64,
}

impl Electricity {
    /// Counts `amount` hundredths of a milliWattever as consumed.
    pub fn add_consumption(&mut self, amount: u64)
        ensures
            *final(self) == (Electricity {
                consumed: capped_sum(old(self).consumed as int, amount as int) as u64,
                total_consumed: capped_sum(old(self).total_consumed as int, amount as int) as u64,
                recent_energy_consumed: capped_sum(
                    old(self).recent_energy_consumed as int,
                    amount as int,
                ) as u64,
                ..*old(self)
            }),
    {
        self.consumed = self.consumed.saturating_add(amount);
        self.total_consumed = self.total_consumed.saturating_add(amount);
        self.recent_energy_consumed = self.recent_energy_consumed.saturating_add(amount);
    }

    /// Closes the window of the consumption statistic: what was consumed
    /// since the last call becomes the rate, which is returned, and the
    /// count starts anew.
    pub fn calculate_consumption_rate(&mut self) -> (rate: u64)
        ensures
            rate == old(self).recent_energy_consumed,
            *final(self) == (Electricity {
                recent_energy_consumed: 0,
                energy_consumption_rate: rate,
                ..*old(self)
            }),
    {
        let rate = self.recent_energy_consumed;
        self.recent_energy_consumed = 0;
        self.energy_consumption_rate = rate;
        rate
    }

    /// What a bill would come to if it were made out now.
    pub fn check_bill(&self) -> (cost: Money)
        requires
            self.cost_level <= MAX_ELECTRICITY_COST_LEVEL,
        ensures
            cost@ == bill_amount(
                electricity_cost_levels()[self.cost_level as int],
                self.consumed as int,
            ),
            cost@ >= 0,
    {
        let price: u128 = electricity_cost(self.cost_level).0 as u128;
        let consumed: u128 = self.consumed as u128;
        assert(price * consumed <= 32_000 * 0xffff_ffff_ffff_ffff) by (nonlinear_arith)
            requires
                0 <= price <= 32_000,
                0 <= consumed <= 0xffff_ffff_ffff_ffff,
        ;
        let cost: u128 = price * consumed / 100_000;
        if cost > i64::MAX as u128 {
            Money(i64::MAX)
        } else {
            Money(cost as i64)
        }
    }

    /// Makes out a bill of `total_cost` at `time`: the cost is added to what
    /// is due (held at the ends of the range of money), and the consumption
    /// to be billed starts anew.
    pub fn emit_bill_for(&mut self, total_cost: Money, time: Time)
        ensures
            *final(self) == (Electricity {
                total_due: Money(clamp_i64(old(self).total_due@ + total_cost@) as i64),
                consumed: 0,
                last_bill_time: time,
                ..*old(self)
            }),
    {
        self.total_due = self.total_due.saturating_plus(total_cost);
        self.consumed = 0;
        self.last_bill_time = time;
    }

    /// Marks every bill as paid.
    pub fn pay_bills(&mut self)
        ensures
            *final(self) == (Electricity { total_due: Money(0), ..*old(self) }),
    {
        self.total_due = Money::zero();
    }
}

impl Default for Electricity {
    fn default() -> (e: Self)
        ensures
            e == (Electricity {
                cost_level: 0,
                consumed: 0,
                total_consumed: 0,
                total_due: Money(0),
                last_bill_time: 0,
                recent_energy_consumed: 0,
                energy_consumption_rate: 0,
            }),
    {
        Electricity {
            cost_level: 0,
            consumed: 0,
            total_consumed: 0,
            total_due: Money::zero(),
            last_bill_time: 0,
            recent_energy_consumed: 0,
            energy_consumption_rate: 0,
        }
    }
}

} // verus!
