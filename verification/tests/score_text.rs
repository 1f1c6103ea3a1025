use gradescope_local::number::{parse_count, parse_score};
use gradescope_local::score::{render_micros, Score, Total, MICROS_PER_POINT};

fn micros(n: i64) -> Option<Score> {
    Some(Score { micros: n })
}

#[test]
fn score_is_written_as_decimal_text() {
    assert_eq!(Score { micros: 9_500_000 }.render(), "9.5");
    assert_eq!(Score { micros: 10_000_000 }.render(), "10");
    assert_eq!(Score { micros: -250_000 }.render(), "-0.25");
    assert_eq!(Score { micros: 0 }.render(), "0");
    assert_eq!(Score { micros: 1 }.render(), "0.000001");
    assert_eq!(Score { micros: 50_000 }.render(), "0.05");
    assert_eq!(Score { micros: 123_456_789 }.render(), "123.456789");
    assert_eq!(Score { micros: 120_000_000 }.render(), "120");
    assert_eq!(Score { micros: -1 }.render(), "-0.000001");
}

#[test]
fn extreme_scores_are_written_in_full() {
    assert_eq!(Score { micros: i64::MAX }.render(), "9223372036854.775807");
    assert_eq!(Score { micros: i64::MIN }.render(), "-9223372036854.775808");
    assert_eq!(
        Total { micros: i128::MAX }.render(),
        "170141183460469231731687303715884.105727"
    );
    assert_eq!(
        render_micros(i128::MIN),
        "-170141183460469231731687303715884.105728"
    );
}

#[test]
fn one_point_is_a_million_micros() {
    assert_eq!(MICROS_PER_POINT, 1_000_000);
    assert_eq!(Score { micros: 3 * MICROS_PER_POINT }.render(), "3");
    assert_eq!(Score { micros: 7 }.total(), Total { micros: 7 });
}

#[test]
fn score_is_read_from_number_text() {
    assert_eq!(parse_score(b"9.5"), micros(9_500_000));
    assert_eq!(parse_score(b"10"), micros(10_000_000));
    assert_eq!(parse_score(b"0"), micros(0));
    assert_eq!(parse_score(b"-0"), micros(0));
    assert_eq!(parse_score(b"-0.25"), micros(-250_000));
    assert_eq!(parse_score(b"0.000001"), micros(1));
    assert_eq!(parse_score(b"10.0"), micros(10_000_000));
}

#[test]
fn exponent_moves_the_decimal_point() {
    assert_eq!(parse_score(b"1e2"), micros(100_000_000));
    assert_eq!(parse_score(b"1E2"), micros(100_000_000));
    assert_eq!(parse_score(b"1e+2"), micros(100_000_000));
    assert_eq!(parse_score(b"1.5E-3"), micros(1_500));
    assert_eq!(parse_score(b"12345e-4"), micros(1_234_500));
    assert_eq!(parse_score(b"0.001e3"), micros(1_000_000));
    assert_eq!(parse_score(b"1e-6"), micros(1));
    assert_eq!(parse_score(b"1e-7"), micros(0));
    assert_eq!(parse_score(b"-2.5e0"), micros(-2_500_000));
    assert_eq!(parse_score(b"1e00000000000000000000000001"), micros(10_000_000));
}

#[test]
fn digits_beyond_the_sixth_place_are_dropped() {
    assert_eq!(parse_score(b"33.333333333333336"), micros(33_333_333));
    assert_eq!(parse_score(b"0.0000019"), micros(1));
    assert_eq!(parse_score(b"0.9999999"), micros(999_999));
    assert_eq!(parse_score(b"-0.9999999"), micros(-999_999));
    assert_eq!(parse_score(b"0.30000000000000004"), micros(300_000));
    assert_eq!(
        parse_score(b"0.33333333333333333333333333333333333333333333333333"),
        micros(333_333)
    );
}

#[test]
fn huge_exponents_are_read_without_overflow() {
    assert_eq!(parse_score(b"0e99999999999999999999999999"), micros(0));
    assert_eq!(parse_score(b"0.000e99999999999999999999999999"), micros(0));
    assert_eq!(parse_score(b"1e-99999999999999999999999999"), micros(0));
    assert_eq!(parse_score(b"1e99999999999999999999999999"), None);
    assert_eq!(parse_score(b"1e1180591620717411303424"), None);
    assert_eq!(parse_score(b"5e-1180591620717411303424"), micros(0));
}

#[test]
fn score_out_of_range_is_refused() {
    assert_eq!(parse_score(b"9223372036854.775807"), micros(i64::MAX));
    assert_eq!(parse_score(b"-9223372036854.775807"), micros(-i64::MAX));
    assert_eq!(parse_score(b"9223372036854.775808"), None);
    assert_eq!(parse_score(b"-9223372036854.775808"), None);
    assert_eq!(parse_score(b"9223372036854.7758079"), micros(i64::MAX));
    assert_eq!(parse_score(b"1e13"), None);
    assert_eq!(parse_score(b"1e12"), micros(1_000_000_000_000_000_000));
    assert_eq!(parse_score(b"922337203685477580700000000e-14"), micros(i64::MAX));
    assert_eq!(parse_score(b"100000000000000000000000000000000000000000"), None);
}

#[test]
fn text_that_is_no_number_is_refused() {
    assert_eq!(parse_score(b""), None);
    assert_eq!(parse_score(b"-"), None);
    assert_eq!(parse_score(b"+1"), None);
    assert_eq!(parse_score(b"01"), None);
    assert_eq!(parse_score(b"-01"), None);
    assert_eq!(parse_score(b"1."), None);
    assert_eq!(parse_score(b".5"), None);
    assert_eq!(parse_score(b"1e"), None);
    assert_eq!(parse_score(b"1e+"), None);
    assert_eq!(parse_score(b"1.e3"), None);
    assert_eq!(parse_score(b"1 "), None);
    assert_eq!(parse_score(b" 1"), None);
    assert_eq!(parse_score(b"1,5"), None);
    assert_eq!(parse_score(b"1.5.2"), None);
    assert_eq!(parse_score(b"1e2e3"), None);
    assert_eq!(parse_score(b"abc"), None);
    assert_eq!(parse_score(b"null"), None);
    assert_eq!(parse_score(b"\"9.5\""), None);
    assert_eq!(parse_score(b"0x10"), None);
    assert_eq!(parse_score(b"NaN"), None);
}

#[test]
fn count_is_a_plain_whole_number() {
    assert_eq!(parse_count(b"0"), Some(0));
    assert_eq!(parse_count(b"12"), Some(12));
    assert_eq!(parse_count(b"4294967295"), Some(u32::MAX));
    assert_eq!(parse_count(b"4294967296"), None);
    assert_eq!(parse_count(b"99999999999999999999999999"), None);
    assert_eq!(parse_count(b""), None);
    assert_eq!(parse_count(b"-1"), None);
    assert_eq!(parse_count(b"-0"), None);
    assert_eq!(parse_count(b"1.0"), None);
    assert_eq!(parse_count(b"1e2"), None);
    assert_eq!(parse_count(b"007"), None);
    assert_eq!(parse_count(b"12a"), None);
}
