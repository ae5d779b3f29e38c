//! Money amounts with a precision of one thousandth of a cent.

use vstd::prelude::*;
use vstd::std_specs::ops::AddSpecImpl;
use vstd::std_specs::ops::MulSpecImpl;
use vstd::std_specs::ops::SubSpecImpl;
use vstd::string::StringExecFns;

use crate::display::{magnitude, push_separated, push_zero_padded, separated, zero_padded};

verus! {

/// Whether `n` can be held by a signed 64-bit integer.
pub open spec fn fits_i64(n: int) -> bool {
    i64::MIN <= n <= i64::MAX
}

/// The value of the signed 64-bit range that is nearest to `n`.
pub open spec fn clamp_i64(n: int) -> int {
    if n < i64::MIN {
        i64::MIN as int
    } else if n > i64::MAX {
        i64::MAX as int
    } else {
        n
    }
}

/// `a / b` rounded towards zero, for a positive divisor.
pub open spec fn div_toward_zero(a: int, b: int) -> int {
    if a >= 0 {
        a / b
    } else {
        -((-a) / b)
    }
}

/// What is left of `a` after [`div_toward_zero`]; it has the sign of `a`.
pub open spec fn rem_toward_zero(a: int, b: int) -> int {
    a - b * div_toward_zero(a, b)
}

/// The sum of two signed 64-bit integers, held at the ends of the range.
pub fn saturating_add_i64(a: i64, b: i64) -> (r: i64)
    ensures
        r == clamp_i64(a + b),
{
    match a.checked_add(b) {
        Some(r) => r,
        None => if b > 0 {
            i64::MAX
        } else {
            i64::MIN
        },
    }
}

/// The difference of two signed 64-bit integers, held at the ends of the range.
pub fn saturating_sub_i64(a: i64, b: i64) -> (r: i64)
    ensures
        r == clamp_i64(a - b),
{
    match a.checked_sub(b) {
        Some(r) => r,
        None => if b < 0 {
            i64::MAX
        } else {
            i64::MIN
        },
    }
}

/// The product of two signed 64-bit integers, held at the ends of the range.
pub fn saturating_mul_i64(a: i64, b: i64) -> (r: i64)
    ensures
        r == clamp_i64(a * b),
{
    match a.checked_mul(b) {
        Some(r) => r,
        None => {
            assert((a > 0 && b > 0) || (a < 0 && b < 0) ==> a * b > 0) by (nonlinear_arith);
            assert((a > 0 && b < 0) || (a < 0 && b > 0) ==> a * b < 0) by (nonlinear_arith);
            if (a > 0) == (b > 0) {
                i64::MAX
            } else {
                i64::MIN
            }
        },
    }
}

/// An amount of money, counted in millicents (a cent is 1 000 millicents).
#[derive(Debug, Clone, Copy, PartialEq, Eq, Structural, PartialOrd, Ord, Hash)]
pub struct Money(pub i64);

impl View for Money {
    type V = int;

    /// The amount in millicents.
    open spec fn view(&self) -> int {
        self.0 as int
    }
}

impl Money {
    pub fn zero() -> (m: Self)
        ensures
            m@ == 0,
    {
        Money(0)
    }

    pub fn millicents(amount: i64) -> (m: Self)
        ensures
            m@ == amount,
    {
        Money(amount)
    }

    /// An amount in tenths of a cent.
    pub fn dec_cents(amount: i64) -> (m: Self)
        requires
            fits_i64(amount * 100),
        ensures
            m@ == amount * 100,
    {
        Money(amount * 100)
    }

    pub fn cents(amount: i64) -> (m: Self)
        requires
            fits_i64(amount * 1_000),
        ensures
            m@ == amount * 1_000,
    {
        Money(amount * 1_000)
    }

    pub fn dollars(amount: i64) -> (m: Self)
        requires
            fits_i64(amount * 100_000),
        ensures
            m@ == amount * 100_000,
    {
        Money(amount * 100_000)
    }

    /// The amount without its fraction of a cent.
    pub fn into_cent_precision(self) -> (m: Self)
        ensures
            m@ == 1_000 * div_toward_zero(self@, 1_000),
            m@ == self@ - rem_toward_zero(self@, 1_000),
    {
        Money(self.to_cents() * 1_000)
    }

    /// The amount without its fraction of a dollar.
    pub fn into_dollar_precision(self) -> (m: Self)
        ensures
            m@ == 100_000 * div_toward_zero(self@, 100_000),
            m@ == self@ - rem_toward_zero(self@, 100_000),
    {
        Money(self.to_dollars() * 100_000)
    }

    /// The whole cents of the amount, rounded towards zero.
    pub fn to_cents(self) -> (c: i64)
        ensures
            c == div_toward_zero(self@, 1_000),
    {
        self.0 / 1_000
    }

    /// The whole dollars of the amount, rounded towards zero.
    pub fn to_dollars(self) -> (d: i64)
        ensures
            d == div_toward_zero(self@, 100_000),
    {
        self.0 / 100_000
    }

    pub fn to_millicents(self) -> (m: i64)
        ensures
            m == self@,
    {
        self.0
    }

    /// The sum of two amounts.
    pub fn plus(self, other: Self) -> (m: Self)
        requires
            fits_i64(self@ + other@),
        ensures
            m@ == self@ + other@,
    {
        Money(self.0 + other.0)
    }

    /// The sum of two amounts, held at the largest or smallest amount that
    /// can be represented where the exact sum cannot.
    pub fn saturating_plus(self, other: Self) -> (m: Self)
        ensures
            m@ == clamp_i64(self@ + other@),
    {
        Money(saturating_add_i64(self.0, other.0))
    }

    /// The difference of two amounts, held at the largest or smallest amount
    /// that can be represented where the exact difference cannot.
    pub fn saturating_minus(self, other: Self) -> (m: Self)
        ensures
            m@ == clamp_i64(self@ - other@),
    {
        Money(saturating_sub_i64(self.0, other.0))
    }

    /// The amount taken `times` over, held at the largest or smallest amount
    /// that can be represented where the exact product cannot.
    pub fn saturating_times(self, times: i64) -> (m: Self)
        ensures
            m@ == clamp_i64(self@ * times),
    {
        Money(saturating_mul_i64(self.0, times))
    }

    /// The larger of two amounts.
    pub fn max(self, other: Self) -> (m: Self)
        ensures
            m@ == if self@ >= other@ { self@ } else { other@ },
    {
        if self.0 >= other.0 {
            self
        } else {
            other
        }
    }
}

/// A whole number of `unit`s of dollars and, unless it is zero, one more
/// digit for the tenths: `$9.2k`.
pub open spec fn rounded_dollars_text(whole: nat, tenths: nat, unit: char) -> Seq<char> {
    if tenths == 0 {
        (seq!['$'] + separated(whole)).push(unit)
    } else {
        ((seq!['$'] + separated(whole)).push('.') + zero_padded(tenths, 1)).push(unit)
    }
}

/// Dollars, a point, and the part below a dollar in `width` digits.
pub open spec fn dollars_and_fraction_text(dollars: nat, fraction: nat, width: int) -> Seq<char> {
    (seq!['$'] + separated(dollars)).push('.') + zero_padded(fraction, width)
}

/// The text of an amount of `m` millicents that is not negative.
///
/// Round amounts from a million dollars on are written in millions (`$3M`,
/// `$2.5M`), those above a thousand dollars in thousands (`$9k`, `$9.2k`).
/// Other amounts are written in dollars, with as many digits behind the
/// point as the amount needs: none, or from two to five.
pub open spec fn unsigned_money_text(m: nat) -> Seq<char> {
    let dollars = m / 100_000;
    let below = m % 100_000;
    if below == 0 && dollars >= 1_000_000 && dollars % 100_000 == 0 {
        rounded_dollars_text(dollars / 1_000_000, dollars % 1_000_000 / 100_000, 'M')
    } else if below == 0 && dollars > 1_000 && dollars % 100 == 0 {
        rounded_dollars_text(dollars / 1_000, dollars % 1_000 / 100, 'k')
    } else if below == 0 {
        seq!['$'] + separated(dollars)
    } else if m % 1_000 == 0 {
        dollars_and_fraction_text(dollars, below / 1_000, 2)
    } else if m % 100 == 0 {
        dollars_and_fraction_text(dollars, below / 100, 3)
    } else if m % 10 == 0 {
        dollars_and_fraction_text(dollars, below / 10, 4)
    } else {
        dollars_and_fraction_text(dollars, below, 5)
    }
}

/// The text of an amount of `m` millicents: a minus sign where it is
/// negative, then the text of its magnitude.
pub open spec fn money_text(m: int) -> Seq<char> {
    if m < 0 {
        seq!['-'] + unsigned_money_text((-m) as nat)
    } else {
        unsigned_money_text(m as nat)
    }
}

fn push_rounded_dollars(out: &mut String, whole: u64, tenths: u64, unit: &str)
    requires
        unit@.len() == 1,
    ensures
        final(out)@ == old(out)@ + rounded_dollars_text(whole as nat, tenths as nat, unit@[0]),
{
    proof {
        reveal_strlit("$");
        reveal_strlit(".");
    }
    out.append("$");
    push_separated(out, whole);
    if tenths != 0 {
        out.append(".");
        push_zero_padded(out, tenths, 1);
    }
    out.append(unit);
    assert(unit@ =~= seq![unit@[0]]);
    assert(out@ =~= old(out)@ + rounded_dollars_text(whole as nat, tenths as nat, unit@[0]));
}

fn push_dollars_and_fraction(out: &mut String, dollars: u64, fraction: u64, width: u32)
    ensures
        final(out)@ == old(out)@ + dollars_and_fraction_text(
            dollars as nat,
            fraction as nat,
            width as int,
        ),
{
    proof {
        reveal_strlit("$");
        reveal_strlit(".");
    }
    out.append("$");
    push_separated(out, dollars);
    out.append(".");
    push_zero_padded(out, fraction, width);
    assert(out@ =~= old(out)@ + dollars_and_fraction_text(
        dollars as nat,
        fraction as nat,
        width as int,
    ));
}

/// Appends the text of an amount of `m` millicents that is not negative.
pub fn push_unsigned_money(out: &mut String, m: u64)
    ensures
        final(out)@ == old(out)@ + unsigned_money_text(m as nat),
{
    let dollars: u64 = m / 100_000;
    let below: u64 = m % 100_000;
    proof {
        reveal_strlit("$");
        reveal_strlit("M");
        reveal_strlit("k");
    }
    if below == 0 && dollars >= 1_000_000 && dollars % 100_000 == 0 {
        push_rounded_dollars(out, dollars / 1_000_000, dollars % 1_000_000 / 100_000, "M");
    } else if below == 0 && dollars > 1_000 && dollars % 100 == 0 {
        push_rounded_dollars(out, dollars / 1_000, dollars % 1_000 / 100, "k");
    } else if below == 0 {
        out.append("$");
        push_separated(out, dollars);
        assert(out@ =~= old(out)@ + unsigned_money_text(m as nat));
    } else if m % 1_000 == 0 {
        push_dollars_and_fraction(out, dollars, below / 1_000, 2);
    } else if m % 100 == 0 {
        push_dollars_and_fraction(out, dollars, below / 100, 3);
    } else if m % 10 == 0 {
        push_dollars_and_fraction(out, dollars, below / 10, 4);
    } else {
        push_dollars_and_fraction(out, dollars, below, 5);
    }
}

impl Money {
    /// Appends the amount to `out` as [`money_text`] writes it.
    pub fn push_to(&self, out: &mut String)
        ensures
            final(out)@ == old(out)@ + money_text(self@),
    {
        if self.0 < 0 {
            proof {
                reveal_strlit("-");
            }
            out.append("-");
        }
        push_unsigned_money(out, magnitude(self.0));
        assert(out@ =~= old(out)@ + money_text(self@));
    }

    /// The amount as the player reads it, such as `$1 234 567.89` (with
    /// U+2006 for the spaces), `$9.2k` or `$0.00005`.
    pub fn to_string(&self) -> (s: String)
        ensures
            s@ == money_text(self@),
    {
        let mut out = String::new();
        self.push_to(&mut out);
        assert(out@ =~= money_text(self@));
        out
    }
}

impl Default for Money {
    fn default() -> (m: Self)
        ensures
            m@ == 0,
    {
        Money(0)
    }
}

impl core::ops::Add for Money {
    type Output = Money;

    fn add(self, rhs: Money) -> (m: Money) {
        Money(self.0 + rhs.0)
    }
}

impl AddSpecImpl for Money {
    open spec fn obeys_add_spec() -> bool {
        true
    }

    open spec fn add_req(self, rhs: Money) -> bool {
        fits_i64(self@ + rhs@)
    }

    open spec fn add_spec(self, rhs: Money) -> Money {
        Money((self.0 + rhs.0) as i64)
    }
}

impl core::ops::Sub for Money {
    type Output = Money;

    fn sub(self, rhs: Money) -> (m: Money) {
        Money(self.0 - rhs.0)
    }
}

impl SubSpecImpl for Money {
    open spec fn obeys_sub_spec() -> bool {
        true
    }

    open spec fn sub_req(self, rhs: Money) -> bool {
        fits_i64(self@ - rhs@)
    }

    open spec fn sub_spec(self, rhs: Money) -> Money {
        Money((self.0 - rhs.0) as i64)
    }
}

impl core::ops::Mul<i32> for Money {
    type Output = Money;

    fn mul(self, rhs: i32) -> (m: Money) {
        Money(self.0 * (rhs as i64))
    }
}

impl MulSpecImpl<i32> for Money {
    open spec fn obeys_mul_spec() -> bool {
        true
    }

    open spec fn mul_req(self, rhs: i32) -> bool {
        fits_i64(self@ * rhs)
    }

    open spec fn mul_spec(self, rhs: i32) -> Money {
        Money((self.0 * rhs) as i64)
    }
}

impl core::ops::AddAssign for Money {
    fn add_assign(&mut self, rhs: Money)
        requires
            fits_i64(old(self)@ + rhs@),
        ensures
            final(self)@ == old(self)@ + rhs@,
    {
        self.0 = self.0 + rhs.0;
    }
}

impl core::ops::SubAssign for Money {
    fn sub_assign(&mut self, rhs: Money)
        requires
            fits_i64(old(self)@ - rhs@),
        ensures
            final(self)@ == old(self)@ - rhs@,
    {
        self.0 = self.0 - rhs.0;
    }
}

} // verus!
