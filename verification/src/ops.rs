//! Counts of the operations that a cloud service has performed.

use vstd::prelude::*;
use vstd::std_specs::convert::FromSpecImpl;
use vstd::std_specs::ops::AddSpecImpl;
use vstd::std_specs::ops::MulSpecImpl;
use vstd::std_specs::ops::SubSpecImpl;
use vstd::string::StringExecFns;

use crate::display::{push_separating, separating_text};
use crate::money::{div_toward_zero, fits_i64, rem_toward_zero, saturating_add_i64};

verus! {

/// A count of cloud service operations.
#[derive(Debug, Clone, Copy, PartialEq, Eq, Structural, PartialOrd, Ord, Hash)]
pub struct Ops(pub i64);

impl View for Ops {
    type V = int;

    open spec fn view(&self) -> int {
        self.0 as int
    }
}

/// A count of operations that is written in the largest unit (`k`, `M`, `G`,
/// `T`) of which it is a whole multiple.
#[derive(Debug)]
pub struct Compact(pub Ops);

/// A whole number of `unit`s.
pub open spec fn in_unit_text(count: int, unit: char) -> Seq<char> {
    separating_text(count).push(unit)
}

/// The short text of a count of `n` operations: `2 010k` for 2010000.
pub open spec fn compact_text(n: int) -> Seq<char> {
    if rem_toward_zero(n, 1_000_000_000_000) == 0 {
        in_unit_text(div_toward_zero(n, 1_000_000_000_000), 'T')
    } else if rem_toward_zero(n, 1_000_000_000) == 0 {
        in_unit_text(div_toward_zero(n, 1_000_000_000), 'G')
    } else if rem_toward_zero(n, 1_000_000) == 0 {
        in_unit_text(div_toward_zero(n, 1_000_000), 'M')
    } else if rem_toward_zero(n, 1_000) == 0 {
        in_unit_text(div_toward_zero(n, 1_000), 'k')
    } else {
        separating_text(n)
    }
}

impl Compact {
    /// Appends the count to `out` as [`compact_text`] writes it.
    pub fn push_to(&self, out: &mut String)
        ensures
            final(out)@ == old(out)@ + compact_text(self.0@),
    {
        let n: i64 = self.0.0;
        proof {
            reveal_strlit("T");
            reveal_strlit("G");
            reveal_strlit("M");
            reveal_strlit("k");
        }
        if n % 1_000_000_000_000 == 0 {
            push_separating(out, n / 1_000_000_000_000);
            out.append("T");
        } else if n % 1_000_000_000 == 0 {
            push_separating(out, n / 1_000_000_000);
            out.append("G");
        } else if n % 1_000_000 == 0 {
            push_separating(out, n / 1_000_000);
            out.append("M");
        } else if n % 1_000 == 0 {
            push_separating(out, n / 1_000);
            out.append("k");
        } else {
            push_separating(out, n);
        }
        assert(out@ =~= old(out)@ + compact_text(self.0@));
    }

    /// The count in its short form.
    pub fn to_string(&self) -> (s: String)
        ensures
            s@ == compact_text(self.0@),
    {
        let mut out = String::new();
        self.push_to(&mut out);
        assert(out@ =~= compact_text(self.0@));
        out
    }
}

impl Ops {
    /// The count in a form that is written short.
    pub fn compact(self) -> (c: Compact)
        ensures
            c.0 == self,
    {
        Compact(self)
    }

    /// The count in groups of three digits.
    pub fn to_string(&self) -> (s: String)
        ensures
            s@ == separating_text(self@),
    {
        let mut out = String::new();
        push_separating(&mut out, self.0);
        assert(out@ =~= separating_text(self@));
        out
    }

    /// The count raised by `amount` operations, held at the largest count
    /// that can be represented.
    pub fn saturating_plus(self, amount: u32) -> (r: Self)
        ensures
            r@ == if self@ + amount > i64::MAX { i64::MAX as int } else { self@ + amount },
    {
        Ops(saturating_add_i64(self.0, amount as i64))
    }
}

impl Default for Ops {
    fn default() -> (r: Self)
        ensures
            r@ == 0,
    {
        Ops(0)
    }
}

impl From<i32> for Ops {
    fn from(i: i32) -> (r: Self) {
        Ops(i as i64)
    }
}

impl FromSpecImpl<i32> for Ops {
    open spec fn obeys_from_spec() -> bool {
        true
    }

    open spec fn from_spec(i: i32) -> Self {
        Ops(i as i64)
    }
}

impl From<i64> for Ops {
    fn from(i: i64) -> (r: Self) {
        Ops(i)
    }
}

impl FromSpecImpl<i64> for Ops {
    open spec fn obeys_from_spec() -> bool {
        true
    }

    open spec fn from_spec(i: i64) -> Self {
        Ops(i)
    }
}

impl core::ops::Add for Ops {
    type Output = Ops;

    fn add(self, rhs: Ops) -> (r: Ops) {
        Ops(self.0 + rhs.0)
    }
}

impl AddSpecImpl for Ops {
    open spec fn obeys_add_spec() -> bool {
        true
    }

    open spec fn add_req(self, rhs: Ops) -> bool {
        fits_i64(self@ + rhs@)
    }

    open spec fn add_spec(self, rhs: Ops) -> Ops {
        Ops((self.0 + rhs.0) as i64)
    }
}

impl core::ops::Sub for Ops {
    type Output = Ops;

    fn sub(self, rhs: Ops) -> (r: Ops) {
        Ops(self.0 - rhs.0)
    }
}

impl SubSpecImpl for Ops {
    open spec fn obeys_sub_spec() -> bool {
        true
    }

    open spec fn sub_req(self, rhs: Ops) -> bool {
        fits_i64(self@ - rhs@)
    }

    open spec fn sub_spec(self, rhs: Ops) -> Ops {
        Ops((self.0 - rhs.0) as i64)
    }
}

impl core::ops::Mul<i32> for Ops {
    type Output = Ops;

    fn mul(self, rhs: i32) -> (r: Ops) {
        Ops(self.0 * (rhs as i64))
    }
}

impl MulSpecImpl<i32> for Ops {
    open spec fn obeys_mul_spec() -> bool {
        true
    }

    open spec fn mul_req(self, rhs: i32) -> bool {
        fits_i64(self@ * rhs)
    }

    open spec fn mul_spec(self, rhs: i32) -> Ops {
        Ops((self.0 * rhs) as i64)
    }
}

impl core::ops::AddAssign for Ops {
    fn add_assign(&mut self, rhs: Ops)
        requires
            fits_i64(old(self)@ + rhs@),
        ensures
            final(self)@ == old(self)@ + rhs@,
    {
        self.0 = self.0 + rhs.0;
    }
}

impl core::ops::SubAssign for Ops {
    fn sub_assign(&mut self, rhs: Ops)
        requires
            fits_i64(old(self)@ - rhs@),
        ensures
            final(self)@ == old(self)@ - rhs@,
    {
        self.0 = self.0 - rhs.0;
    }
}

} // verus!
