use gradescope_local::gradescope::{GraderResult, TestResult, Visibility};
use gradescope_local::results::{Report, TestRow, Visualizer};
use gradescope_local::score::{Score, Total};

fn points(n: i64) -> Option<Score> {
    Some(Score { micros: n * 1_000_000 })
}

fn empty_result() -> GraderResult {
    GraderResult {
        score: None,
        execution_time: None,
        output: None,
        visibility: None,
        stdout_visibility: None,
        extra_data: None,
        tests: None,
    }
}

fn empty_test() -> TestResult {
    TestResult {
        score: None,
        max_score: None,
        name: None,
        number: None,
        output: None,
        tags: None,
        visibility: None,
        extra_data: None,
    }
}

fn scored_test(score: Option<Score>) -> TestResult {
    TestResult { score, ..empty_test() }
}

#[test]
fn headline_is_the_same_given_directly_or_by_tests() {
    let derived = GraderResult {
        tests: Some(vec![scored_test(points(5)), scored_test(points(3))]),
        ..empty_result()
    };
    let direct = GraderResult { score: points(8), ..empty_result() };
    assert_eq!(derived.headline_score(), Total { micros: 8_000_000 });
    assert_eq!(direct.headline_score(), Total { micros: 8_000_000 });
    assert_eq!(derived.headline_score().render(), "8");
    assert_eq!(direct.headline_score().render(), "8");
}

#[test]
fn headline_prefers_the_score_given_directly() {
    let result = GraderResult {
        score: points(2),
        tests: Some(vec![scored_test(points(5)), scored_test(points(3))]),
        ..empty_result()
    };
    assert_eq!(result.headline_score(), Total { micros: 2_000_000 });
}

#[test]
fn headline_without_score_and_tests_is_zero() {
    assert_eq!(empty_result().headline_score(), Total { micros: 0 });
    let no_tests = GraderResult { tests: Some(vec![]), ..empty_result() };
    assert_eq!(no_tests.headline_score(), Total { micros: 0 });
}

#[test]
fn test_without_score_adds_nothing() {
    let result = GraderResult {
        tests: Some(vec![
            scored_test(points(5)),
            scored_test(None),
            scored_test(Some(Score { micros: 2_500_000 })),
            scored_test(Some(Score { micros: -500_000 })),
        ]),
        ..empty_result()
    };
    assert_eq!(result.headline_score(), Total { micros: 7_000_000 });
    assert_eq!(result.headline_score().render(), "7");
}

#[test]
fn headline_sum_does_not_overflow() {
    let result = GraderResult {
        tests: Some(vec![
            scored_test(Some(Score { micros: i64::MAX })),
            scored_test(Some(Score { micros: i64::MAX })),
            scored_test(Some(Score { micros: i64::MAX })),
        ]),
        ..empty_result()
    };
    assert_eq!(result.headline_score(), Total { micros: 3 * (i64::MAX as i128) });
    assert_eq!(result.headline_score().render(), "27670116110564.327421");
    let low = GraderResult {
        tests: Some(vec![
            scored_test(Some(Score { micros: i64::MIN })),
            scored_test(Some(Score { micros: i64::MIN })),
        ]),
        ..empty_result()
    };
    assert_eq!(low.headline_score(), Total { micros: 2 * (i64::MIN as i128) });
}

#[test]
fn test_header_is_composed_of_its_parts() {
    let test = TestResult {
        number: Some(String::from("1")),
        name: Some(String::from("t1")),
        score: Some(Score { micros: 9_500_000 }),
        max_score: points(10),
        output: Some(String::from("ok")),
        ..empty_test()
    };
    assert_eq!(Visualizer::create_test_header(&test), "1) t1 (9.5 / 10)");
    assert_eq!(
        Visualizer::view_test(&test),
        TestRow { header: String::from("1) t1 (9.5 / 10)"), output: String::from("ok") }
    );
}

#[test]
fn missing_parts_of_a_header_are_placeholders() {
    assert_eq!(Visualizer::create_test_header(&empty_test()), "-)  (- / -)");
    let test = TestResult { number: Some(String::from("2.1")), max_score: points(4), ..empty_test() };
    assert_eq!(Visualizer::create_test_header(&test), "2.1)  (- / 4)");
    let test = TestResult {
        name: Some(String::from("style")),
        score: points(0),
        visibility: Some(Visibility::Hidden),
        ..empty_test()
    };
    assert_eq!(Visualizer::create_test_header(&test), "-) style (0 / -)");
    assert_eq!(Visualizer::view_test(&test).output, "");
}

#[test]
fn report_lists_each_test_in_order() {
    let result = GraderResult {
        tests: Some(vec![
            TestResult {
                number: Some(String::from("1")),
                name: Some(String::from("first")),
                score: points(1),
                max_score: points(2),
                output: Some(String::from("half")),
                ..empty_test()
            },
            scored_test(Some(Score { micros: 250_000 })),
        ]),
        ..empty_result()
    };
    assert_eq!(
        Visualizer::view_result(&result),
        Report {
            score: String::from("1.25"),
            tests: Some(vec![
                TestRow { header: String::from("1) first (1 / 2)"), output: String::from("half") },
                TestRow { header: String::from("-)  (0.25 / -)"), output: String::new() },
            ]),
        }
    );
}

#[test]
fn report_of_a_sparse_result_can_be_shown() {
    assert_eq!(
        Visualizer::view_result(&empty_result()),
        Report { score: String::from("0"), tests: None }
    );
    let result = GraderResult { score: points(3), tests: Some(vec![]), ..empty_result() };
    assert_eq!(
        Visualizer::view_result(&result),
        Report { score: String::from("3"), tests: Some(vec![]) }
    );
}
