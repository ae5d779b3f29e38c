//! Decimal text for the numbers that are shown to the player.

use vstd::prelude::*;
use vstd::string::StringExecFns;

verus! {

/// The character that separates groups of three digits: a six-per-em space.
pub open spec fn group_separator() -> char {
    '\u{2006}'
}

/// The ASCII digit for `d`, which is below ten.
pub open spec fn digit_char(d: nat) -> char {
    if d == 0 {
        '0'
    } else if d == 1 {
        '1'
    } else if d == 2 {
        '2'
    } else if d == 3 {
        '3'
    } else if d == 4 {
        '4'
    } else if d == 5 {
        '5'
    } else if d == 6 {
        '6'
    } else if d == 7 {
        '7'
    } else if d == 8 {
        '8'
    } else {
        '9'
    }
}

/// `count` zeros.
pub open spec fn zeros(count: int) -> Seq<char> {
    Seq::new(if count > 0 { count as nat } else { 0 }, |i: int| '0')
}

/// The decimal digits of `n`, with zeros in front until there are at least
/// `width` digits. With a width of zero or one these are the plain digits.
pub open spec fn zero_padded(n: nat, width: int) -> Seq<char>
    decreases n,
{
    if n < 10 {
        zeros(width - 1).push(digit_char(n))
    } else {
        zero_padded(n / 10, width - 1).push(digit_char(n % 10))
    }
}

/// The decimal digits of `n` in groups of three, counted from the right,
/// with `separator` between two groups.
pub open spec fn grouped(n: nat, separator: Seq<char>) -> Seq<char>
    decreases n,
{
    if n < 1_000 {
        zero_padded(n, 0)
    } else {
        grouped(n / 1_000, separator) + separator + zero_padded(n % 1_000, 3)
    }
}

/// The decimal digits of `n` in groups of three with a [`group_separator`]
/// between two groups, as amounts are shown to the player.
pub open spec fn separated(n: nat) -> Seq<char> {
    grouped(n, seq![group_separator()])
}

fn digit_text(d: u64) -> (t: &'static str)
    requires
        d < 10,
    ensures
        t@ == seq![digit_char(d as nat)],
{
    proof {
        reveal_strlit("0");
        reveal_strlit("1");
        reveal_strlit("2");
        reveal_strlit("3");
        reveal_strlit("4");
        reveal_strlit("5");
        reveal_strlit("6");
        reveal_strlit("7");
        reveal_strlit("8");
        reveal_strlit("9");
    }
    if d == 0 {
        "0"
    } else if d == 1 {
        "1"
    } else if d == 2 {
        "2"
    } else if d == 3 {
        "3"
    } else if d == 4 {
        "4"
    } else if d == 5 {
        "5"
    } else if d == 6 {
        "6"
    } else if d == 7 {
        "7"
    } else if d == 8 {
        "8"
    } else {
        "9"
    }
}

/// Appends the decimal digits of `n` to `out`, padded with zeros to `width`.
pub fn push_zero_padded(out: &mut String, n: u64, width: u32)
    ensures
        final(out)@ == old(out)@ + zero_padded(n as nat, width as int),
    decreases n,
{
    if n < 10 {
        let mut left: u32 = width;
        while left > 1
            invariant
                left <= width,
                width >= 1 ==> left >= 1,
                out@ == old(out)@ + zeros(width - left),
            decreases left,
        {
            proof {
                reveal_strlit("0");
            }
            out.append("0");
            left = left - 1;
            assert(out@ =~= old(out)@ + zeros(width - left));
        }
        out.append(digit_text(n));
        assert(zeros(width - left) =~= zeros(width - 1));
        assert(out@ =~= old(out)@ + zero_padded(n as nat, width as int));
    } else {
        push_zero_padded(out, n / 10, if width > 0 { width - 1 } else { 0 });
        out.append(digit_text(n % 10));
        assert(zero_padded((n / 10) as nat, width as int - 1) =~= zero_padded(
            (n / 10) as nat,
            if width > 0 { width as int - 1 } else { 0 },
        )) by {
            if width == 0 {
                lemma_width_below_one(n as nat / 10, -1);
            }
        }
        assert(out@ =~= old(out)@ + zero_padded(n as nat, width as int));
    }
}

/// A width of one or less asks for no padding at all.
pub proof fn lemma_width_below_one(n: nat, width: int)
    requires
        width <= 1,
    ensures
        zero_padded(n, width) == zero_padded(n, 0),
    decreases n,
{
    if n < 10 {
        assert(zeros(width - 1) =~= zeros(-1));
    } else {
        lemma_width_below_one(n / 10, width - 1);
        lemma_width_below_one(n / 10, -1);
    }
}

/// Appends `n` to `out` in groups of three digits with `separator` between
/// them.
pub fn push_grouped(out: &mut String, n: u64, separator: &str)
    ensures
        final(out)@ == old(out)@ + grouped(n as nat, separator@),
    decreases n,
{
    if n < 1_000 {
        push_zero_padded(out, n, 0);
    } else {
        push_grouped(out, n / 1_000, separator);
        out.append(separator);
        push_zero_padded(out, n % 1_000, 3);
        assert(out@ =~= old(out)@ + grouped(n as nat, separator@));
    }
}

/// Appends `n` to `out` in groups of three digits, as amounts are shown to
/// the player.
pub fn push_separated(out: &mut String, n: u64)
    ensures
        final(out)@ == old(out)@ + separated(n as nat),
{
    proof {
        reveal_strlit("\u{2006}");
        assert("\u{2006}"@ =~= seq![group_separator()]);
    }
    push_grouped(out, n, "\u{2006}");
}

/// The text of a signed number in groups of three digits, as amounts are
/// shown to the player.
pub open spec fn separating_text(n: int) -> Seq<char> {
    if n < 0 {
        seq!['-'] + separated((-n) as nat)
    } else {
        separated(n as nat)
    }
}

/// The distance of `n` from zero.
pub fn magnitude(n: i64) -> (m: u64)
    ensures
        m == if n < 0 { -n } else { n as int },
{
    if n == i64::MIN {
        9_223_372_036_854_775_808u64
    } else if n < 0 {
        (-n) as u64
    } else {
        n as u64
    }
}

/// Appends a signed number to `out` in groups of three digits.
pub fn push_separating(out: &mut String, n: i64)
    ensures
        final(out)@ == old(out)@ + separating_text(n as int),
{
    if n < 0 {
        proof {
            reveal_strlit("-");
        }
        out.append("-");
    }
    push_separated(out, magnitude(n));
    assert(out@ =~= old(out)@ + separating_text(n as int));
}

/// The plain text of a signed number in groups of three digits, with a
/// space between two groups.
pub open spec fn spaced_text(n: int) -> Seq<char> {
    if n < 0 {
        seq!['-'] + grouped((-n) as nat, seq![' '])
    } else {
        grouped(n as nat, seq![' '])
    }
}

/// A number that is written in groups of three digits.
pub struct Separating(pub i64);

impl Separating {
    /// The number as plain text, with a space between each group of three
    /// digits: `-45 300` for -45300.
    pub fn to_string(&self) -> (s: String)
        ensures
            s@ == spaced_text(self.0 as int),
    {
        let mut out = String::new();
        proof {
            reveal_strlit("-");
            reveal_strlit(" ");
            assert(" "@ =~= seq![' ']);
        }
        if self.0 < 0 {
            out.append("-");
        }
        push_grouped(&mut out, magnitude(self.0), " ");
        assert(out@ =~= spaced_text(self.0 as int));
        out
    }
}

} // verus!
