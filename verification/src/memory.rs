//! Amounts of memory.

use vstd::prelude::*;
use vstd::std_specs::convert::FromSpecImpl;
use vstd::std_specs::ops::AddSpecImpl;
use vstd::std_specs::ops::MulSpecImpl;
use vstd::std_specs::ops::SubSpecImpl;
use vstd::string::StringExecFns;

use crate::display::{
    push_separated, push_separating, push_zero_padded, separated, separating_text, zero_padded,
};
use crate::money::{clamp_i64, fits_i64, saturating_sub_i64};

verus! {

/// An amount of memory, counted in bytes.
#[derive(Debug, Clone, Copy, PartialEq, Eq, Structural, PartialOrd, Ord, Hash)]
pub struct Memory(pub i64);

impl View for Memory {
    type V = int;

    /// The amount in bytes.
    open spec fn view(&self) -> int {
        self.0 as int
    }
}

/// `n` bytes written in a unit of `unit` bytes: the whole units and, where
/// the rest holds at least a thousandth of a unit, a point and the
/// hundredths.
pub open spec fn in_memory_unit_text(n: nat, unit: nat, suffix: Seq<char>) -> Seq<char> {
    let whole = n / unit;
    let thousandths = (n % unit) / (unit / 1_000);
    if thousandths == 0 {
        separated(whole) + suffix
    } else {
        separated(whole).push('.') + zero_padded(thousandths / 10, 2) + suffix
    }
}

/// The text of an amount of `n` bytes. From ten of a unit on the amount is
/// written in that unit (`TB`, `GB`, `MB`, `KB`, each a thousand of the
/// next), below that in bytes.
pub open spec fn memory_text(n: int) -> Seq<char> {
    if n >= 10_000_000_000_000 {
        in_memory_unit_text(n as nat, 1_000_000_000_000, seq!['T', 'B'])
    } else if n >= 10_000_000_000 {
        in_memory_unit_text(n as nat, 1_000_000_000, seq!['G', 'B'])
    } else if n >= 10_000_000 {
        in_memory_unit_text(n as nat, 1_000_000, seq!['M', 'B'])
    } else if n >= 10_000 {
        in_memory_unit_text(n as nat, 1_000, seq!['K', 'B'])
    } else {
        separating_text(n).push('B')
    }
}

fn push_in_memory_unit(out: &mut String, n: u64, unit: u64, suffix: &str)
    requires
        unit >= 1_000,
    ensures
        final(out)@ == old(out)@ + in_memory_unit_text(n as nat, unit as nat, suffix@),
{
    let whole: u64 = n / unit;
    let thousandths: u64 = (n % unit) / (unit / 1_000);
    push_separated(out, whole);
    if thousandths != 0 {
        proof {
            reveal_strlit(".");
        }
        out.append(".");
        push_zero_padded(out, thousandths / 10, 2);
    }
    out.append(suffix);
    assert(out@ =~= old(out)@ + in_memory_unit_text(n as nat, unit as nat, suffix@));
}

impl Memory {
    pub fn zero() -> (m: Self)
        ensures
            m@ == 0,
    {
        Memory(0)
    }

    pub fn bytes(bytes: i64) -> (m: Self)
        ensures
            m@ == bytes,
    {
        Memory(bytes)
    }

    pub fn kb(kb: i64) -> (m: Self)
        requires
            fits_i64(kb * 1_000),
        ensures
            m@ == kb * 1_000,
    {
        Memory(kb * 1_000)
    }

    pub fn mb(mb: i64) -> (m: Self)
        requires
            fits_i64(mb * 1_000_000),
        ensures
            m@ == mb * 1_000_000,
    {
        Memory(mb * 1_000_000)
    }

    pub fn gb(gb: i64) -> (m: Self)
        requires
            fits_i64(gb * 1_000_000_000),
        ensures
            m@ == gb * 1_000_000_000,
    {
        Memory(gb * 1_000_000_000)
    }

    pub fn tb(tb: i64) -> (m: Self)
        requires
            fits_i64(tb * 1_000_000_000_000),
        ensures
            m@ == tb * 1_000_000_000_000,
    {
        Memory(tb * 1_000_000_000_000)
    }

    /// Appends the amount to `out` as [`memory_text`] writes it.
    pub fn push_to(&self, out: &mut String)
        ensures
            final(out)@ == old(out)@ + memory_text(self@),
    {
        let n: i64 = self.0;
        proof {
            reveal_strlit("TB");
            reveal_strlit("GB");
            reveal_strlit("MB");
            reveal_strlit("KB");
            reveal_strlit("B");
            assert("TB"@ =~= seq!['T', 'B']);
            assert("GB"@ =~= seq!['G', 'B']);
            assert("MB"@ =~= seq!['M', 'B']);
            assert("KB"@ =~= seq!['K', 'B']);
        }
        if n >= 10_000_000_000_000 {
            push_in_memory_unit(out, n as u64, 1_000_000_000_000, "TB");
        } else if n >= 10_000_000_000 {
            push_in_memory_unit(out, n as u64, 1_000_000_000, "GB");
        } else if n >= 10_000_000 {
            push_in_memory_unit(out, n as u64, 1_000_000, "MB");
        } else if n >= 10_000 {
            push_in_memory_unit(out, n as u64, 1_000, "KB");
        } else {
            push_separating(out, n);
            out.append("B");
            assert(out@ =~= old(out)@ + memory_text(self@));
        }
    }

    /// The amount as the player reads it, such as `256MB` or `1.50GB`.
    pub fn to_string(&self) -> (s: String)
        ensures
            s@ == memory_text(self@),
    {
        let mut out = String::new();
        self.push_to(&mut out);
        assert(out@ =~= memory_text(self@));
        out
    }
}

impl From<i32> for Memory {
    fn from(i: i32) -> (r: Self) {
        Memory(i as i64)
    }
}

impl FromSpecImpl<i32> for Memory {
    open spec fn obeys_from_spec() -> bool {
        true
    }

    open spec fn from_spec(i: i32) -> Self {
        Memory(i as i64)
    }
}

impl From<i64> for Memory {
    fn from(i: i64) -> (r: Self) {
        Memory(i)
    }
}

impl FromSpecImpl<i64> for Memory {
    open spec fn obeys_from_spec() -> bool {
        true
    }

    open spec fn from_spec(i: i64) -> Self {
        Memory(i)
    }
}

impl core::ops::Add for Memory {
    type Output = Memory;

    fn add(self, rhs: Memory) -> (r: Memory) {
        Memory(self.0 + rhs.0)
    }
}

impl AddSpecImpl for Memory {
    open spec fn obeys_add_spec() -> bool {
        true
    }

    open spec fn add_req(self, rhs: Memory) -> bool {
        fits_i64(self@ + rhs@)
    }

    open spec fn add_spec(self, rhs: Memory) -> Memory {
        Memory((self.0 + rhs.0) as i64)
    }
}

impl core::ops::Sub for Memory {
    type Output = Memory;

    fn sub(self, rhs: Memory) -> (r: Memory) {
        Memory(self.0 - rhs.0)
    }
}

impl SubSpecImpl for Memory {
    open spec fn obeys_sub_spec() -> bool {
        true
    }

    open spec fn sub_req(self, rhs: Memory) -> bool {
        fits_i64(self@ - rhs@)
    }

    open spec fn sub_spec(self, rhs: Memory) -> Memory {
        Memory((self.0 - rhs.0) as i64)
    }
}

impl core::ops::Mul<i32> for Memory {
    type Output = Memory;

    fn mul(self, rhs: i32) -> (r: Memory) {
        Memory(self.0 * (rhs as i64))
    }
}

impl MulSpecImpl<i32> for Memory {
    open spec fn obeys_mul_spec() -> bool {
        true
    }

    open spec fn mul_req(self, rhs: i32) -> bool {
        fits_i64(self@ * rhs)
    }

    open spec fn mul_spec(self, rhs: i32) -> Memory {
        Memory((self.0 * rhs) as i64)
    }
}

impl core::ops::AddAssign for Memory {
    fn add_assign(&mut self, rhs: Memory)
        requires
            fits_i64(old(self)@ + rhs@),
        ensures
            final(self)@ == old(self)@ + rhs@,
    {
        self.0 = self.0 + rhs.0;
    }
}

impl core::ops::SubAssign for Memory {
    /// Takes `rhs` away; the result is held at the ends of the range.
    fn sub_assign(&mut self, rhs: Memory)
        ensures
            final(self)@ == clamp_i64(old(self)@ - rhs@),
    {
        self.0 = saturating_sub_i64(self.0, rhs.0);
    }
}

} // verus!
