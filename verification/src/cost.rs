//! What an upgrade costs: money, and operations of each service tier.

use vstd::prelude::*;
use vstd::std_specs::ops::AddSpecImpl;
use vstd::string::StringExecFns;

use crate::money::{fits_i64, money_text, Money};
use crate::ops::{compact_text, Ops};

verus! {

/// A price in money and in operations of the four service tiers.
#[derive(Debug, Clone, PartialEq)]
pub struct Cost {
    pub money: Money,
    /// operations of the base service
    pub base_ops: Ops,
    /// operations of the super service
    pub super_ops: Ops,
    /// operations of the epic service
    pub epic_ops: Ops,
    /// operations of the awesome service
    pub awesome_ops: Ops,
}

/// The sum of two costs, component by component.
pub open spec fn cost_sum(a: Cost, b: Cost) -> Cost {
    Cost {
        money: Money((a.money.0 + b.money.0) as i64),
        base_ops: Ops((a.base_ops.0 + b.base_ops.0) as i64),
        super_ops: Ops((a.super_ops.0 + b.super_ops.0) as i64),
        epic_ops: Ops((a.epic_ops.0 + b.epic_ops.0) as i64),
        awesome_ops: Ops((a.awesome_ops.0 + b.awesome_ops.0) as i64),
    }
}

/// Whether every component of the sum of two costs can be represented.
pub open spec fn cost_sum_fits(a: Cost, b: Cost) -> bool {
    &&& fits_i64(a.money@ + b.money@)
    &&& fits_i64(a.base_ops@ + b.base_ops@)
    &&& fits_i64(a.super_ops@ + b.super_ops@)
    &&& fits_i64(a.epic_ops@ + b.epic_ops@)
    &&& fits_i64(a.awesome_ops@ + b.awesome_ops@)
}

/// The parts, with `separator` between each two of them.
pub open spec fn joined(parts: Seq<Seq<char>>, separator: Seq<char>) -> Seq<char>
    decreases parts.len(),
{
    if parts.len() == 0 {
        Seq::empty()
    } else if parts.len() == 1 {
        parts[0]
    } else {
        joined(parts.drop_last(), separator) + separator + parts.last()
    }
}

/// `parts`, and `part` after them where it is `present`.
pub open spec fn with_part(parts: Seq<Seq<char>>, present: bool, part: Seq<char>) -> Seq<Seq<char>> {
    if present {
        parts.push(part)
    } else {
        parts
    }
}

pub open spec fn awesome_label() -> Seq<char> {
    seq![' ', 'a', 'w', 'e', 's', 'o', 'm', 'e', ' ', 'o', 'p', 's']
}

pub open spec fn epic_label() -> Seq<char> {
    seq![' ', 'e', 'p', 'i', 'c', ' ', 'o', 'p', 's']
}

pub open spec fn super_label() -> Seq<char> {
    seq![' ', 's', 'u', 'p', 'e', 'r', ' ', 'o', 'p', 's']
}

pub open spec fn base_label() -> Seq<char> {
    seq![' ', 'b', 'a', 's', 'e', ' ', 'o', 'p', 's']
}

/// The parts of a cost that are not zero, from the highest tier down to the
/// base tier and then the money: `3k super ops`, `$5`.
pub open spec fn cost_parts(cost: Cost) -> Seq<Seq<char>> {
    let a = with_part(
        Seq::empty(),
        cost.awesome_ops@ != 0,
        compact_text(cost.awesome_ops@) + awesome_label(),
    );
    let b = with_part(a, cost.epic_ops@ != 0, compact_text(cost.epic_ops@) + epic_label());
    let c = with_part(b, cost.super_ops@ != 0, compact_text(cost.super_ops@) + super_label());
    let d = with_part(c, cost.base_ops@ != 0, compact_text(cost.base_ops@) + base_label());
    with_part(d, cost.money@ != 0, money_text(cost.money@))
}

/// The text of a cost: its parts with ` + ` between them, and nothing at all
/// for a cost of nothing.
pub open spec fn cost_text(cost: Cost) -> Seq<char> {
    joined(cost_parts(cost), part_separator())
}

/// What stands between two parts of a cost.
pub open spec fn part_separator() -> Seq<char> {
    seq![' ', '+', ' ']
}

/// Appends one more part to a text that holds `parts` so far.
fn push_part(out: &mut String, some: bool, Ghost(parts): Ghost<Seq<Seq<char>>>, part: &str)
    requires
        old(out)@ == joined(parts, part_separator()),
        some == (parts.len() > 0),
    ensures
        final(out)@ == joined(parts.push(part@), part_separator()),
{
    if some {
        proof {
            reveal_strlit(" + ");
        }
        out.append(" + ");
        assert(" + "@ =~= part_separator());
    }
    out.append(part);
    assert(parts.push(part@).drop_last() =~= parts);
    assert(out@ =~= joined(parts.push(part@), part_separator()));
}

/// A count of operations in its short form, and the name of their tier.
fn ops_part(count: Ops, label: &str) -> (part: String)
    ensures
        part@ == compact_text(count@) + label@,
{
    let mut part = String::new();
    count.compact().push_to(&mut part);
    part.append(label);
    assert(part@ =~= compact_text(count@) + label@);
    part
}

impl Cost {
    /// The cost of what is free.
    pub fn nothing() -> (c: Self)
        ensures
            c == (Cost { money: Money(0), base_ops: Ops(0), super_ops: Ops(0), epic_ops: Ops(0), awesome_ops: Ops(0) }),
    {
        Cost { money: Money(0), base_ops: Ops(0), super_ops: Ops(0), epic_ops: Ops(0), awesome_ops: Ops(0) }
    }

    pub fn money(money: Money) -> (c: Self)
        ensures
            c == (Cost { money, base_ops: Ops(0), super_ops: Ops(0), epic_ops: Ops(0), awesome_ops: Ops(0) }),
    {
        Cost { money, base_ops: Ops(0), super_ops: Ops(0), epic_ops: Ops(0), awesome_ops: Ops(0) }
    }

    pub fn cents(money_cents: i64) -> (c: Self)
        requires
            fits_i64(money_cents * 1_000),
        ensures
            c == (Cost { money: Money((money_cents * 1_000) as i64), base_ops: Ops(0), super_ops: Ops(0), epic_ops: Ops(0), awesome_ops: Ops(0) }),
    {
        Cost::money(Money::cents(money_cents))
    }

    pub fn dollars(money_dollars: i64) -> (c: Self)
        requires
            fits_i64(money_dollars * 100_000),
        ensures
            c == (Cost { money: Money((money_dollars * 100_000) as i64), base_ops: Ops(0), super_ops: Ops(0), epic_ops: Ops(0), awesome_ops: Ops(0) }),
    {
        Cost::money(Money::dollars(money_dollars))
    }

    pub fn base_ops(base_ops: i32) -> (c: Self)
        ensures
            c == (Cost { money: Money(0), base_ops: Ops(base_ops as i64), super_ops: Ops(0), epic_ops: Ops(0), awesome_ops: Ops(0) }),
    {
        Cost { money: Money(0), base_ops: Ops(base_ops as i64), super_ops: Ops(0), epic_ops: Ops(0), awesome_ops: Ops(0) }
    }

    pub fn super_ops(super_ops: i32) -> (c: Self)
        ensures
            c == (Cost { money: Money(0), base_ops: Ops(0), super_ops: Ops(super_ops as i64), epic_ops: Ops(0), awesome_ops: Ops(0) }),
    {
        Cost { money: Money(0), base_ops: Ops(0), super_ops: Ops(super_ops as i64), epic_ops: Ops(0), awesome_ops: Ops(0) }
    }

    pub fn epic_ops(epic_ops: i32) -> (c: Self)
        ensures
            c == (Cost { money: Money(0), base_ops: Ops(0), super_ops: Ops(0), epic_ops: Ops(epic_ops as i64), awesome_ops: Ops(0) }),
    {
        Cost { money: Money(0), base_ops: Ops(0), super_ops: Ops(0), epic_ops: Ops(epic_ops as i64), awesome_ops: Ops(0) }
    }

    pub fn awesome_ops(awesome_ops: i32) -> (c: Self)
        ensures
            c == (Cost { money: Money(0), base_ops: Ops(0), super_ops: Ops(0), epic_ops: Ops(0), awesome_ops: Ops(awesome_ops as i64) }),
    {
        Cost { money: Money(0), base_ops: Ops(0), super_ops: Ops(0), epic_ops: Ops(0), awesome_ops: Ops(awesome_ops as i64) }
    }

    /// This cost and another one together.
    pub fn and(self, cost: Cost) -> (c: Self)
        requires
            cost_sum_fits(self, cost),
        ensures
            c == cost_sum(self, cost),
    {
        Cost {
            money: self.money.plus(cost.money),
            base_ops: Ops(self.base_ops.0 + cost.base_ops.0),
            super_ops: Ops(self.super_ops.0 + cost.super_ops.0),
            epic_ops: Ops(self.epic_ops.0 + cost.epic_ops.0),
            awesome_ops: Ops(self.awesome_ops.0 + cost.awesome_ops.0),
        }
    }

    /// Whether every component is zero.
    pub fn is_nothing(&self) -> (b: bool)
        ensures
            b == (self.money@ == 0 && self.base_ops@ == 0 && self.super_ops@ == 0
                && self.epic_ops@ == 0 && self.awesome_ops@ == 0),
    {
        self.money.0 == 0 && self.base_ops.0 == 0 && self.super_ops.0 == 0 && self.epic_ops.0 == 0
            && self.awesome_ops.0 == 0
    }

    /// The cost as the player reads it, such as `10k super ops + $5`.
    pub fn to_string(&self) -> (s: String)
        ensures
            s@ == cost_text(*self),
    {
        let mut out = String::new();
        let mut some = false;
        let ghost mut parts: Seq<Seq<char>> = Seq::empty();
        proof {
            reveal_strlit(" awesome ops");
            reveal_strlit(" epic ops");
            reveal_strlit(" super ops");
            reveal_strlit(" base ops");
            assert(" awesome ops"@ =~= awesome_label());
            assert(" epic ops"@ =~= epic_label());
            assert(" super ops"@ =~= super_label());
            assert(" base ops"@ =~= base_label());
        }
        if self.awesome_ops.0 != 0 {
            let part = ops_part(self.awesome_ops, " awesome ops");
            push_part(&mut out, some, Ghost(parts), part.as_str());
            some = true;
            proof {
                parts = parts.push(part@);
            }
        }
        if self.epic_ops.0 != 0 {
            let part = ops_part(self.epic_ops, " epic ops");
            push_part(&mut out, some, Ghost(parts), part.as_str());
            some = true;
            proof {
                parts = parts.push(part@);
            }
        }
        if self.super_ops.0 != 0 {
            let part = ops_part(self.super_ops, " super ops");
            push_part(&mut out, some, Ghost(parts), part.as_str());
            some = true;
            proof {
                parts = parts.push(part@);
            }
        }
        if self.base_ops.0 != 0 {
            let part = ops_part(self.base_ops, " base ops");
            push_part(&mut out, some, Ghost(parts), part.as_str());
            some = true;
            proof {
                parts = parts.push(part@);
            }
        }
        if self.money.0 != 0 {
            let part = self.money.to_string();
            push_part(&mut out, some, Ghost(parts), part.as_str());
            proof {
                parts = parts.push(part@);
            }
        }
        assert(parts =~= cost_parts(*self));
        out
    }
}

impl Default for Cost {
    fn default() -> (c: Self)
        ensures
            c == (Cost { money: Money(0), base_ops: Ops(0), super_ops: Ops(0), epic_ops: Ops(0), awesome_ops: Ops(0) }),
    {
        Cost::nothing()
    }
}

impl core::ops::Add for Cost {
    type Output = Cost;

    fn add(self, rhs: Cost) -> (c: Cost) {
        self.and(rhs)
    }
}

impl AddSpecImpl for Cost {
    open spec fn obeys_add_spec() -> bool {
        true
    }

    open spec fn add_req(self, rhs: Cost) -> bool {
        cost_sum_fits(self, rhs)
    }

    open spec fn add_spec(self, rhs: Cost) -> Cost {
        cost_sum(self, rhs)
    }
}

} // verus!
