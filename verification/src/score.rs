//! Scores as exact fixed-point decimals.
//!
//! A score is a whole number of millionths of a point. Sums of scores are
//! exact, and a score is written the way a person would write it: `9.5`,
//! `10`, `-0.25`.

use vstd::prelude::*;
use crate::text::push_char;

verus! {

/// How many units of a [`Score`] make one point.
pub const MICROS_PER_POINT: i64 = 1_000_000;

/// The score of one test, or a score given for a whole result.
#[derive(Clone, Copy, Debug, PartialEq, Eq, Structural)]
pub struct Score {
    /// Millionths of a point.
    pub micros: i64,
}

/// A sum of scores. It is wide enough for the sum of any list of scores that
/// fits in memory.
#[derive(Clone, Copy, Debug, PartialEq, Eq, Structural)]
pub struct Total {
    /// Millionths of a point.
    pub micros: i128,
}

impl View for Score {
    type V = int;

    open spec fn view(&self) -> int {
        self.micros as int
    }
}

impl View for Total {
    type V = int;

    open spec fn view(&self) -> int {
        self.micros as int
    }
}

/// The character that writes the decimal digit `d`.
pub open spec fn digit(d: int) -> char {
    ((48 + d) as u8) as char
}

/// The decimal digits of `n`, most significant first, without leading zeros.
pub open spec fn nat_text(n: nat) -> Seq<char>
    decreases n,
{
    if n < 10 {
        seq![digit(n as int)]
    } else {
        nat_text(n / 10).push(digit((n % 10) as int))
    }
}

/// The digits after the decimal point for the fraction `f / (10 * unit)`,
/// where `f < 10 * unit` and `unit` is a power of ten. Trailing zeros are
/// not written, so a zero fraction has no digits.
pub open spec fn fraction_text(f: nat, unit: nat) -> Seq<char>
    decreases unit,
{
    if f == 0 || unit == 0 {
        Seq::<char>::empty()
    } else {
        seq![digit((f / unit) as int)] + fraction_text(f % unit, unit / 10)
    }
}

/// How a number of millionths is written: an optional minus sign, the whole
/// part, and, unless the fraction is zero, a point and the fraction's digits
/// without trailing zeros.
pub open spec fn decimal_text(micros: int) -> Seq<char> {
    let magnitude: nat = if micros < 0 { (-micros) as nat } else { micros as nat };
    let sign = if micros < 0 { seq!['-'] } else { Seq::<char>::empty() };
    let whole = nat_text(magnitude / (MICROS_PER_POINT as nat));
    let fraction: nat = magnitude % (MICROS_PER_POINT as nat);
    if fraction == 0 {
        sign + whole
    } else {
        sign + whole + seq!['.'] + fraction_text(fraction, 100_000)
    }
}

fn digit_char(d: u8) -> (c: char)
    requires
        d < 10,
    ensures
        c == digit(d as int),
{
    (48u8 + d) as char
}

fn push_nat(s: &mut String, n: u128)
    ensures
        final(s)@ == old(s)@ + nat_text(n as nat),
    decreases n,
{
    if n >= 10 {
        push_nat(s, n / 10);
    }
    push_char(s, digit_char((n % 10) as u8));
}

fn push_fraction(s: &mut String, f: u32, unit: u32)
    requires
        f < 10 * unit,
        unit == 1 || unit == 10 || unit == 100 || unit == 1_000 || unit == 10_000 || unit
            == 100_000,
    ensures
        final(s)@ == old(s)@ + fraction_text(f as nat, unit as nat),
    decreases unit,
{
    if f != 0 {
        assert(f / unit < 10) by (nonlinear_arith)
            requires
                f < 10 * unit,
                unit > 0,
        ;
        push_char(s, digit_char((f / unit) as u8));
        if unit > 1 {
            push_fraction(s, f % unit, unit / 10);
        } else {
            assert(fraction_text((f % unit) as nat, (unit / 10) as nat) == Seq::<char>::empty());
        }
    }
}

/// Writes a number of millionths as decimal text.
pub fn render_micros(micros: i128) -> (s: String)
    ensures
        s@ == decimal_text(micros as int),
{
    let mut s = String::new();
    let magnitude: u128 = if micros < 0 {
        push_char(&mut s, '-');
        (-(micros + 1)) as u128 + 1
    } else {
        micros as u128
    };
    push_nat(&mut s, magnitude / 1_000_000);
    let fraction: u32 = (magnitude % 1_000_000) as u32;
    if fraction != 0 {
        push_char(&mut s, '.');
        push_fraction(&mut s, fraction, 100_000);
    }
    s
}

impl Score {
    /// The score as decimal text.
    pub fn render(&self) -> (s: String)
        ensures
            s@ == decimal_text(self@),
    {
        render_micros(self.micros as i128)
    }

    /// The score as a sum of one term.
    pub fn total(&self) -> (t: Total)
        ensures
            t@ == self@,
    {
        Total { micros: self.micros as i128 }
    }
}

impl Total {
    /// The sum as decimal text.
    pub fn render(&self) -> (s: String)
        ensures
            s@ == decimal_text(self@),
    {
        render_micros(self.micros)
    }
}

} // verus!
