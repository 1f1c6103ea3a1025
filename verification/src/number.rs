//! Reading a score from the text of a JSON number.
//!
//! The text is read as the decimal number it writes, exactly: nothing goes
//! through floating point. What lies beyond the sixth decimal place is
//! dropped, and a number too large for a [`Score`] is refused.

use vstd::prelude::*;
use crate::score::Score;

verus! {

/// Whether `b` is an ASCII decimal digit.
pub open spec fn is_digit(b: u8) -> bool {
    48 <= b <= 57
}

/// Whether every byte of `ds` is a decimal digit.
pub open spec fn all_digits(ds: Seq<u8>) -> bool {
    forall|i: int| 0 <= i < ds.len() ==> is_digit(#[trigger] ds[i])
}

/// The number that a string of decimal digits writes; the empty string
/// writes zero.
pub open spec fn digits_value(ds: Seq<u8>) -> nat
    decreases ds.len(),
{
    if ds.len() == 0 {
        0
    } else {
        digits_value(ds.drop_last()) * 10 + (ds.last() - 48) as nat
    }
}

/// Ten to the power `n`.
pub open spec fn pow10(n: nat) -> nat
    decreases n,
{
    if n == 0 {
        1
    } else {
        10 * pow10((n - 1) as nat)
    }
}

/// The first index at or after `from` at which `s` holds no digit.
pub open spec fn digits_end(s: Seq<u8>, from: int) -> int
    decreases s.len() - from,
{
    if 0 <= from < s.len() && is_digit(s[from]) {
        digits_end(s, from + 1)
    } else {
        from
    }
}

/// The parts of a JSON number: `-? digits (. digits)? ((e|E) (+|-)? digits)?`.
pub ghost struct NumberParts {
    /// Whether the number begins with a minus sign.
    pub negative: bool,
    /// The digits before the decimal point.
    pub whole: Seq<u8>,
    /// The digits after the decimal point; empty if there is none.
    pub fraction: Seq<u8>,
    /// The exponent; zero if none is written.
    pub exponent: int,
}

/// Splits the text of a JSON number into its parts. The whole text must be
/// one number: at least one digit before the point, no leading zero before
/// another digit, at least one digit after a point and after an exponent
/// mark, and nothing else before or after.
pub open spec fn number_parts(text: Seq<u8>) -> Option<NumberParts> {
    let negative = text.len() > 0 && text[0] == 45;
    let start: int = if negative { 1 } else { 0 };
    let whole_end = digits_end(text, start);
    let has_fraction = whole_end < text.len() && text[whole_end] == 46;
    let fraction_start = if has_fraction { whole_end + 1 } else { whole_end };
    let fraction_end = digits_end(text, fraction_start);
    let has_exponent = fraction_end < text.len() && (text[fraction_end] == 101
        || text[fraction_end] == 69);
    let sign_at = fraction_end + 1;
    let has_sign = has_exponent && sign_at < text.len() && (text[sign_at] == 43 || text[sign_at]
        == 45);
    let exponent_start = if !has_exponent {
        fraction_end
    } else if has_sign {
        sign_at + 1
    } else {
        sign_at
    };
    let exponent_end = digits_end(text, exponent_start);
    let exponent_size = digits_value(text.subrange(exponent_start, exponent_end)) as int;
    if whole_end == start || (whole_end - start > 1 && text[start] == 48) || (has_fraction
        && fraction_end == fraction_start) || (has_exponent && exponent_end == exponent_start)
        || exponent_end != text.len() {
        None
    } else {
        Some(
            NumberParts {
                negative,
                whole: text.subrange(start, whole_end),
                fraction: text.subrange(fraction_start, fraction_end),
                exponent: if has_sign && text[sign_at] == 45 {
                    -exponent_size
                } else {
                    exponent_size
                },
            },
        )
    }
}

/// A number with its decimal point moved `shift` places to the right (to
/// the left, if `shift` is negative), without what then lies behind the
/// point.
pub open spec fn shifted(mantissa: nat, shift: int) -> nat {
    if shift >= 0 {
        mantissa * pow10(shift as nat)
    } else {
        mantissa / pow10((-shift) as nat)
    }
}

/// The size of the number in millionths, with what lies beyond the sixth
/// decimal place dropped.
pub open spec fn magnitude_micros(parts: NumberParts) -> nat {
    shifted(
        digits_value(parts.whole + parts.fraction),
        parts.exponent - parts.fraction.len() + 6,
    )
}

/// The score that the text of a JSON number writes, in millionths: `None`
/// if the text is no JSON number or its size is above `i64::MAX`
/// millionths.
pub open spec fn score_of(text: Seq<u8>) -> Option<int> {
    match number_parts(text) {
        None => None,
        Some(parts) => {
            let size = magnitude_micros(parts);
            if size > i64::MAX {
                None
            } else if parts.negative {
                Some(-(size as int))
            } else {
                Some(size as int)
            }
        },
    }
}

/// The count that the text of a JSON number writes: `None` unless the text
/// is a string of digits, without a leading zero before another digit, that
/// writes a number no larger than `u32::MAX`.
pub open spec fn count_of(text: Seq<u8>) -> Option<nat> {
    if text.len() == 0 || !all_digits(text) || (text.len() > 1 && text[0] == 48) || digits_value(
        text,
    ) > u32::MAX {
        None
    } else {
        Some(digits_value(text))
    }
}

/// The number written by the digits `ds` after a number `acc` that earlier
/// digits wrote.
pub open spec fn value_from(acc: nat, ds: Seq<u8>) -> nat
    decreases ds.len(),
{
    if ds.len() == 0 {
        acc
    } else {
        value_from(acc, ds.drop_last()) * 10 + (ds.last() - 48) as nat
    }
}

proof fn lemma_value_from_zero(ds: Seq<u8>)
    ensures
        value_from(0, ds) == digits_value(ds),
    decreases ds.len(),
{
    if ds.len() > 0 {
        lemma_value_from_zero(ds.drop_last());
    }
}

proof fn lemma_value_from_concat(acc: nat, x: Seq<u8>, y: Seq<u8>)
    ensures
        value_from(acc, x + y) == value_from(value_from(acc, x), y),
    decreases y.len(),
{
    if y.len() == 0 {
        assert(x + y =~= x);
    } else {
        assert((x + y).drop_last() =~= x + y.drop_last());
        lemma_value_from_concat(acc, x, y.drop_last());
    }
}

proof fn lemma_value_from_grows(acc: nat, ds: Seq<u8>)
    ensures
        value_from(acc, ds) >= acc,
    decreases ds.len(),
{
    if ds.len() > 0 {
        lemma_value_from_grows(acc, ds.drop_last());
    }
}

proof fn lemma_pow10_positive(n: nat)
    ensures
        pow10(n) >= 1,
    decreases n,
{
    if n > 0 {
        lemma_pow10_positive((n - 1) as nat);
    }
}

proof fn lemma_pow10_monotonic(a: nat, b: nat)
    requires
        a <= b,
    ensures
        pow10(a) <= pow10(b),
    decreases b,
{
    if a < b {
        lemma_pow10_monotonic(a, (b - 1) as nat);
        lemma_pow10_positive((b - 1) as nat);
    }
}

proof fn lemma_pow10_19()
    ensures
        pow10(19) > i64::MAX,
{
    reveal_with_fuel(pow10, 20);
}

proof fn lemma_value_below_power(ds: Seq<u8>)
    requires
        all_digits(ds),
    ensures
        digits_value(ds) < pow10(ds.len()),
    decreases ds.len(),
{
    if ds.len() > 0 {
        assert(is_digit(ds[ds.len() - 1]));
        lemma_value_below_power(ds.drop_last());
    }
}

/// Dropping the last `j` digits divides by ten to the `j`, rounding down.
proof fn lemma_value_truncate(ds: Seq<u8>, j: nat)
    requires
        all_digits(ds),
        j <= ds.len(),
    ensures
        digits_value(ds) / pow10(j) == digits_value(ds.take(ds.len() - j)),
    decreases j,
{
    if j == 0 {
        assert(ds.take(ds.len() - j) =~= ds);
        assert(pow10(j) == 1);
    } else {
        let rest = ds.drop_last();
        let p = pow10((j - 1) as nat);
        lemma_pow10_positive((j - 1) as nat);
        assert(is_digit(ds[ds.len() - 1]));
        lemma_value_truncate(rest, (j - 1) as nat);
        assert(rest.take(rest.len() - (j - 1)) =~= ds.take(ds.len() - j));
        let v = digits_value(ds) as int;
        assert(v / 10 == digits_value(rest));
        assert(pow10(j) == 10 * p);
        vstd::arithmetic::div_mod::lemma_div_denominator(v, 10, p as int);
        assert(v / (10 * (p as int)) == (v / 10) / (p as int));
        assert(digits_value(ds) / pow10(j) == digits_value(rest) / p);
    }
}

fn scan_digits(text: &[u8], from: usize) -> (end: usize)
    requires
        from <= text.len(),
    ensures
        end == digits_end(text@, from as int),
        from <= end <= text.len(),
        all_digits(text@.subrange(from as int, end as int)),
        end < text.len() ==> !is_digit(text@[end as int]),
{
    let mut i: usize = from;
    while i < text.len() && 48 <= text[i] && text[i] <= 57
        invariant
            from <= i <= text.len(),
            digits_end(text@, from as int) == digits_end(text@, i as int),
            forall|k: int| from <= k < i ==> is_digit(#[trigger] text@[k]),
        decreases text.len() - i,
    {
        i += 1;
    }
    i
}

/// Reads the digits `text[from..to]` after `acc`, unless the number leaves
/// the range of a score.
fn take_digits(text: &[u8], from: usize, to: usize, acc: u64) -> (r: Option<u64>)
    requires
        from <= to <= text.len(),
        all_digits(text@.subrange(from as int, to as int)),
        acc <= i64::MAX,
    ensures
        match r {
            Some(v) => v == value_from(acc as nat, text@.subrange(from as int, to as int)) && v
                <= i64::MAX,
            None => value_from(acc as nat, text@.subrange(from as int, to as int)) > i64::MAX,
        },
{
    let ghost all = text@.subrange(from as int, to as int);
    let mut cur: u64 = acc;
    let mut i: usize = from;
    assert(text@.subrange(from as int, from as int) =~= Seq::<u8>::empty());
    while i < to
        invariant
            from <= i <= to <= text.len(),
            all == text@.subrange(from as int, to as int),
            all_digits(all),
            cur == value_from(acc as nat, text@.subrange(from as int, i as int)),
            cur <= i64::MAX,
        decreases to - i,
    {
        assert(is_digit(all[i - from]));
        let d: u64 = (text[i] - 48) as u64;
        let ghost seen = text@.subrange(from as int, i + 1);
        let ghost rest = text@.subrange(i + 1, to as int);
        proof {
            assert(seen.drop_last() =~= text@.subrange(from as int, i as int));
            assert(seen + rest =~= all);
            lemma_value_from_concat(acc as nat, seen, rest);
            lemma_value_from_grows(value_from(acc as nat, seen), rest);
        }
        if cur > (9223372036854775807u64 - d) / 10 {
            return None;
        }
        cur = cur * 10 + d;
        i += 1;
    }
    Some(cur)
}

/// Multiplies `m` by ten `k` times, unless the number leaves the range of
/// a score.
fn scale_up(m: u64, k: i128) -> (r: Option<u64>)
    requires
        1 <= m <= i64::MAX,
        k >= 0,
    ensures
        match r {
            Some(v) => v == m * pow10(k as nat) && v <= i64::MAX,
            None => m * pow10(k as nat) > i64::MAX,
        },
{
    let mut cur: u64 = m;
    let mut j: i128 = 0;
    assert(m * pow10(0) == m) by (nonlinear_arith)
        requires
            pow10(0) == 1,
    ;
    while j < k
        invariant
            0 <= j <= k,
            cur == m * pow10(j as nat),
            1 <= cur <= i64::MAX,
        decreases k - j,
    {
        proof {
            lemma_pow10_monotonic((j + 1) as nat, k as nat);
            assert(m * pow10((j + 1) as nat) <= m * pow10(k as nat)) by (nonlinear_arith)
                requires
                    pow10((j + 1) as nat) <= pow10(k as nat),
            ;
            assert(m * pow10((j + 1) as nat) == cur * 10) by (nonlinear_arith)
                requires
                    cur == m * pow10(j as nat),
                    pow10((j + 1) as nat) == 10 * pow10(j as nat),
            ;
        }
        if cur > 922337203685477580u64 {
            return None;
        }
        cur = cur * 10;
        j += 1;
    }
    Some(cur)
}

/// Above this an exponent is not told apart from a larger one: the digits
/// of a number in memory are fewer.
const EXPONENT_CAP: u128 = 0x40_0000_0000_0000_0000;

/// The number that the digits `text[from..to]` write, or [`EXPONENT_CAP`] if
/// that is smaller.
fn capped_value(text: &[u8], from: usize, to: usize) -> (e: u128)
    requires
        from <= to <= text.len(),
        all_digits(text@.subrange(from as int, to as int)),
    ensures
        e <= EXPONENT_CAP,
        e < EXPONENT_CAP ==> e == digits_value(text@.subrange(from as int, to as int)),
        e == EXPONENT_CAP ==> digits_value(text@.subrange(from as int, to as int))
            >= EXPONENT_CAP,
{
    let ghost all = text@.subrange(from as int, to as int);
    let mut e: u128 = 0;
    let mut i: usize = from;
    assert(text@.subrange(from as int, from as int) =~= Seq::<u8>::empty());
    while i < to
        invariant
            from <= i <= to <= text.len(),
            all == text@.subrange(from as int, to as int),
            all_digits(all),
            e <= EXPONENT_CAP,
            e < EXPONENT_CAP ==> e == value_from(0, text@.subrange(from as int, i as int)),
            e == EXPONENT_CAP ==> value_from(0, text@.subrange(from as int, i as int))
                >= EXPONENT_CAP,
        decreases to - i,
    {
        assert(is_digit(all[i - from]));
        let d: u128 = (text[i] - 48) as u128;
        assert(text@.subrange(from as int, i + 1).drop_last() =~= text@.subrange(
            from as int,
            i as int,
        ));
        if e < EXPONENT_CAP {
            e = e * 10 + d;
            if e > EXPONENT_CAP {
                e = EXPONENT_CAP;
            }
        }
        i += 1;
    }
    proof {
        lemma_value_from_zero(all);
    }
    e
}


/// Moving the point of a positive number nineteen places or more to the
/// right takes it out of the range of a score, and zero stays zero.
proof fn lemma_shift_far_right(mantissa: nat, shift: int)
    requires
        shift >= 19,
    ensures
        mantissa == 0 ==> shifted(mantissa, shift) == 0,
        mantissa > 0 ==> shifted(mantissa, shift) > i64::MAX,
{
    lemma_pow10_19();
    lemma_pow10_monotonic(19, shift as nat);
    let p = pow10(shift as nat);
    assert(mantissa == 0 ==> mantissa * p == 0) by (nonlinear_arith);
    assert(mantissa > 0 ==> mantissa * p >= p) by (nonlinear_arith)
        requires
            p >= 1,
    ;
}

/// Moving the point to the left of all digits leaves nothing before it.
proof fn lemma_shift_far_left(ds: Seq<u8>, shift: int)
    requires
        all_digits(ds),
        shift <= -ds.len(),
    ensures
        shifted(digits_value(ds), shift) == 0,
{
    lemma_value_below_power(ds);
    if shift < 0 {
        lemma_pow10_monotonic(ds.len(), (-shift) as nat);
        vstd::arithmetic::div_mod::lemma_basic_div(
            digits_value(ds) as int,
            pow10((-shift) as nat) as int,
        );
    } else {
        assert(ds.len() == 0);
        assert(digits_value(ds) * pow10(shift as nat) == 0) by (nonlinear_arith)
            requires
                digits_value(ds) == 0,
        ;
    }
}

/// The size in millionths of the number whose digits are `text[start..whole_end]`
/// before the point and `text[fraction_start..fraction_end]` after it, with
/// the point moved `shift` places to the right.
fn magnitude(
    text: &[u8],
    start: usize,
    whole_end: usize,
    fraction_start: usize,
    fraction_end: usize,
    shift: i128,
) -> (r: Option<u64>)
    requires
        start <= whole_end <= fraction_start <= fraction_end <= text.len(),
        all_digits(text@.subrange(start as int, whole_end as int)),
        all_digits(text@.subrange(fraction_start as int, fraction_end as int)),
        -0x100_0000_0000_0000_0000_0000 < shift,
    ensures
        ({
            let digits = text@.subrange(start as int, whole_end as int) + text@.subrange(
                fraction_start as int,
                fraction_end as int,
            );
            match r {
                Some(v) => v == shifted(digits_value(digits), shift as int) && v <= i64::MAX,
                None => shifted(digits_value(digits), shift as int) > i64::MAX,
            }
        }),
{
    let ghost whole = text@.subrange(start as int, whole_end as int);
    let ghost fraction = text@.subrange(fraction_start as int, fraction_end as int);
    let ghost digits = whole + fraction;
    let whole_len: usize = whole_end - start;
    let fraction_len: usize = fraction_end - fraction_start;
    proof {
        lemma_value_from_zero(digits);
        lemma_value_from_concat(0, whole, fraction);
        lemma_value_from_grows(value_from(0, whole), fraction);
        assert(all_digits(digits)) by {
            assert forall|i: int| 0 <= i < digits.len() implies is_digit(#[trigger] digits[i]) by {
                if i < whole.len() {
                    assert(digits[i] == whole[i]);
                } else {
                    assert(digits[i] == fraction[i - whole.len()]);
                }
            }
        }
    }
    if shift >= 0 {
        proof {
            lemma_pow10_positive(shift as nat);
            assert(digits_value(digits) * pow10(shift as nat) >= digits_value(digits))
                by (nonlinear_arith)
                requires
                    pow10(shift as nat) >= 1,
            ;
        }
        let a: u64 = match take_digits(text, start, whole_end, 0) {
            Some(a) => a,
            None => {
                return None;
            },
        };
        let m: u64 = match take_digits(text, fraction_start, fraction_end, a) {
            Some(m) => m,
            None => {
                return None;
            },
        };
        if m == 0 {
            assert(0 * pow10(shift as nat) == 0) by (nonlinear_arith);
            return Some(0);
        }
        scale_up(m, shift)
    } else {
        let count: u128 = whole_len as u128 + fraction_len as u128;
        let dropped: u128 = (-shift) as u128;
        if dropped >= count {
            proof {
                lemma_shift_far_left(digits, shift as int);
            }
            return Some(0);
        }
        let keep: usize = (count - dropped) as usize;
        proof {
            lemma_value_truncate(digits, dropped as nat);
            lemma_value_from_zero(digits.take(keep as int));
        }
        if keep <= whole_len {
            assert(digits.take(keep as int) =~= text@.subrange(start as int, start + keep));
            assert(all_digits(text@.subrange(start as int, start + keep))) by {
                assert forall|i: int| 0 <= i < keep implies is_digit(
                    #[trigger] text@.subrange(start as int, start + keep)[i],
                ) by {
                    assert(digits[i] == text@.subrange(start as int, start + keep)[i]);
                }
            }
            take_digits(text, start, start + keep, 0)
        } else {
            let extra: usize = keep - whole_len;
            let ghost head = text@.subrange(fraction_start as int, fraction_start + extra);
            proof {
                assert(digits.take(keep as int) =~= whole + head);
                lemma_value_from_concat(0, whole, head);
                lemma_value_from_grows(value_from(0, whole), head);
                assert forall|i: int| 0 <= i < extra implies is_digit(#[trigger] head[i]) by {
                    assert(head[i] == fraction[i]);
                }
            }
            let a: u64 = match take_digits(text, start, whole_end, 0) {
                Some(a) => a,
                None => {
                    return None;
                },
            };
            take_digits(text, fraction_start, fraction_start + extra, a)
        }
    }
}


/// Where the parts of a number lie in its text.
struct Layout {
    negative: bool,
    start: usize,
    whole_end: usize,
    fraction_start: usize,
    fraction_end: usize,
    exponent_negative: bool,
    exponent_start: usize,
    exponent_end: usize,
}

impl Layout {
    /// Whether the layout is that of `text`, read as one JSON number.
    spec fn describes(&self, text: Seq<u8>) -> bool {
        &&& self.start <= self.whole_end <= self.fraction_start <= self.fraction_end
            <= self.exponent_start <= self.exponent_end == text.len()
        &&& all_digits(text.subrange(self.start as int, self.whole_end as int))
        &&& all_digits(text.subrange(self.fraction_start as int, self.fraction_end as int))
        &&& all_digits(text.subrange(self.exponent_start as int, self.exponent_end as int))
        &&& number_parts(text) == Some(
            NumberParts {
                negative: self.negative,
                whole: text.subrange(self.start as int, self.whole_end as int),
                fraction: text.subrange(self.fraction_start as int, self.fraction_end as int),
                exponent: if self.exponent_negative {
                    -(digits_value(
                        text.subrange(self.exponent_start as int, self.exponent_end as int),
                    ) as int)
                } else {
                    digits_value(
                        text.subrange(self.exponent_start as int, self.exponent_end as int),
                    ) as int
                },
            },
        )
    }
}

/// Finds the parts of a JSON number in `text`.
fn scan_number(text: &[u8]) -> (r: Option<Layout>)
    ensures
        match r {
            Some(layout) => layout.describes(text@),
            None => number_parts(text@) is None,
        },
{
    let n: usize = text.len();
    let negative: bool = n > 0 && text[0] == 45;
    let start: usize = if negative { 1 } else { 0 };
    let whole_end: usize = scan_digits(text, start);
    if whole_end == start || (whole_end - start > 1 && text[start] == 48) {
        return None;
    }
    let has_fraction: bool = whole_end < n && text[whole_end] == 46;
    let fraction_start: usize = if has_fraction { whole_end + 1 } else { whole_end };
    let fraction_end: usize = scan_digits(text, fraction_start);
    if has_fraction && fraction_end == fraction_start {
        return None;
    }
    let has_exponent: bool = fraction_end < n && (text[fraction_end] == 101 || text[fraction_end]
        == 69);
    let has_sign: bool = has_exponent && fraction_end + 1 < n && (text[fraction_end + 1] == 43
        || text[fraction_end + 1] == 45);
    let exponent_negative: bool = has_sign && text[fraction_end + 1] == 45;
    let exponent_start: usize = if !has_exponent {
        fraction_end
    } else if has_sign {
        fraction_end + 2
    } else {
        fraction_end + 1
    };
    let exponent_end: usize = scan_digits(text, exponent_start);
    if (has_exponent && exponent_end == exponent_start) || exponent_end != n {
        return None;
    }
    Some(
        Layout {
            negative,
            start,
            whole_end,
            fraction_start,
            fraction_end,
            exponent_negative,
            exponent_start,
            exponent_end,
        },
    )
}

/// Reads a score from the text of a JSON number.
///
/// The number is read exactly as written, exponent included. What lies
/// beyond the sixth decimal place is dropped. The result is `None` if the
/// text is no JSON number, or if the number is larger than a score can be.
pub fn parse_score(text: &[u8]) -> (r: Option<Score>)
    ensures
        match r {
            Some(score) => score_of(text@) == Some(score@),
            None => score_of(text@) is None,
        },
{
    let layout: Layout = match scan_number(text) {
        Some(layout) => layout,
        None => {
            return None;
        },
    };
    let capped: u128 = capped_value(text, layout.exponent_start, layout.exponent_end);
    let exponent: i128 = if layout.exponent_negative { -(capped as i128) } else { capped as i128 };
    let shift: i128 = exponent - ((layout.fraction_end - layout.fraction_start) as i128) + 6;
    let size: Option<u64> = magnitude(
        text,
        layout.start,
        layout.whole_end,
        layout.fraction_start,
        layout.fraction_end,
        shift,
    );
    proof {
        let parts = number_parts(text@)->0;
        let digits = parts.whole + parts.fraction;
        let exact = parts.exponent - parts.fraction.len() + 6;
        assert(all_digits(digits)) by {
            assert forall|i: int| 0 <= i < digits.len() implies is_digit(#[trigger] digits[i]) by {
                if i < parts.whole.len() {
                    assert(digits[i] == parts.whole[i]);
                } else {
                    assert(digits[i] == parts.fraction[i - parts.whole.len()]);
                }
            }
        }
        if capped == EXPONENT_CAP {
            if layout.exponent_negative {
                lemma_shift_far_left(digits, shift as int);
                lemma_shift_far_left(digits, exact);
            } else {
                lemma_shift_far_right(digits_value(digits), shift as int);
                lemma_shift_far_right(digits_value(digits), exact);
            }
        } else {
            assert(shift == exact);
        }
    }
    match size {
        None => None,
        Some(v) => Some(Score { micros: if layout.negative { -(v as i64) } else { v as i64 } }),
    }
}


/// Reads a count, such as a number of seconds, from the text of a JSON
/// number. Only a plain non-negative integer is a count: a sign, a decimal
/// point or an exponent is refused.
pub fn parse_count(text: &[u8]) -> (r: Option<u32>)
    ensures
        match r {
            Some(v) => count_of(text@) == Some(v as nat),
            None => count_of(text@) is None,
        },
{
    let n: usize = text.len();
    let end: usize = scan_digits(text, 0);
    if n == 0 || end != n || (n > 1 && text[0] == 48) {
        return None;
    }
    assert(text@.subrange(0, n as int) =~= text@);
    proof {
        lemma_value_from_zero(text@);
    }
    match take_digits(text, 0, n, 0) {
        Some(v) => if v > 0xffff_ffff {
            None
        } else {
            Some(v as u32)
        },
        None => None,
    }
}

} // verus!
