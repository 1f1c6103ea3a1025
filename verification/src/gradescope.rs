//! The result that a grading run leaves behind.
//!
//! Every field is optional: a result is usable as soon as it has been read,
//! whichever fields it holds.

use vstd::prelude::*;
use crate::score::{Score, Total};
use crate::text::texts_view;

verus! {

/// When a result, or a part of it, is shown to the student.
#[derive(Debug, Clone, Copy, PartialEq, Eq, Structural)]
pub enum Visibility {
    Hidden,
    AfterPublished,
    AfterDueDate,
    Visible,
}

/// The outcome of one test case.
#[derive(Debug, Clone, PartialEq)]
pub struct TestResult {
    pub score: Option<Score>,
    pub max_score: Option<Score>,
    pub name: Option<String>,
    pub number: Option<String>,
    pub output: Option<String>,
    pub tags: Option<Vec<String>>,
    pub visibility: Option<Visibility>,
    /// The JSON text of the value, as it was written.
    pub extra_data: Option<Vec<u8>>,
}

/// The outcome of a grading run.
#[derive(Debug, Clone, PartialEq)]
pub struct GraderResult {
    pub score: Option<Score>,
    /// Seconds the run took.
    pub execution_time: Option<u32>,
    pub output: Option<String>,
    pub visibility: Option<Visibility>,
    pub stdout_visibility: Option<Visibility>,
    /// The JSON text of the value, as it was written.
    pub extra_data: Option<Vec<u8>>,
    pub tests: Option<Vec<TestResult>>,
}

/// What a [`TestResult`] holds.
pub ghost struct TestResultView {
    pub score: Option<int>,
    pub max_score: Option<int>,
    pub name: Option<Seq<char>>,
    pub number: Option<Seq<char>>,
    pub output: Option<Seq<char>>,
    pub tags: Option<Seq<Seq<char>>>,
    pub visibility: Option<Visibility>,
    pub extra_data: Option<Seq<u8>>,
}

/// What a [`GraderResult`] holds.
pub ghost struct GraderResultView {
    pub score: Option<int>,
    pub execution_time: Option<nat>,
    pub output: Option<Seq<char>>,
    pub visibility: Option<Visibility>,
    pub stdout_visibility: Option<Visibility>,
    pub extra_data: Option<Seq<u8>>,
    pub tests: Option<Seq<TestResultView>>,
}

/// What an optional score holds, in millionths.
pub open spec fn score_view(score: Option<Score>) -> Option<int> {
    match score {
        Some(s) => Some(s@),
        None => None,
    }
}

/// What an optional string holds.
pub open spec fn text_view(text: Option<String>) -> Option<Seq<char>> {
    match text {
        Some(s) => Some(s@),
        None => None,
    }
}

/// What an optional byte string holds.
pub open spec fn bytes_view(bytes: Option<Vec<u8>>) -> Option<Seq<u8>> {
    match bytes {
        Some(b) => Some(b@),
        None => None,
    }
}

/// What a list of test results holds.
pub open spec fn tests_view(tests: Seq<TestResult>) -> Seq<TestResultView> {
    tests.map_values(|t: TestResult| t@)
}

impl View for TestResult {
    type V = TestResultView;

    open spec fn view(&self) -> TestResultView {
        TestResultView {
            score: score_view(self.score),
            max_score: score_view(self.max_score),
            name: text_view(self.name),
            number: text_view(self.number),
            output: text_view(self.output),
            tags: match self.tags {
                Some(tags) => Some(texts_view(tags@)),
                None => None,
            },
            visibility: self.visibility,
            extra_data: bytes_view(self.extra_data),
        }
    }
}

impl View for GraderResult {
    type V = GraderResultView;

    open spec fn view(&self) -> GraderResultView {
        GraderResultView {
            score: score_view(self.score),
            execution_time: match self.execution_time {
                Some(t) => Some(t as nat),
                None => None,
            },
            output: text_view(self.output),
            visibility: self.visibility,
            stdout_visibility: self.stdout_visibility,
            extra_data: bytes_view(self.extra_data),
            tests: match self.tests {
                Some(tests) => Some(tests_view(tests@)),
                None => None,
            },
        }
    }
}

/// What a test adds to a sum of scores: its score, or nothing if it has
/// none.
pub open spec fn score_or_zero(test: TestResultView) -> int {
    match test.score {
        Some(s) => s,
        None => 0,
    }
}

/// The sum of the scores of `tests`.
pub open spec fn sum_of_scores(tests: Seq<TestResultView>) -> int
    decreases tests.len(),
{
    if tests.len() == 0 {
        0
    } else {
        sum_of_scores(tests.drop_last()) + score_or_zero(tests.last())
    }
}

/// The score shown for a whole result: its own score if it has one, else
/// the sum of the scores of its tests, else zero.
pub open spec fn headline(result: GraderResultView) -> int {
    match result.score {
        Some(s) => s,
        None => match result.tests {
            Some(tests) => sum_of_scores(tests),
            None => 0,
        },
    }
}

impl GraderResult {
    /// The score shown for the whole result.
    ///
    /// A score given for the result is returned as it is. Without one, the
    /// scores of the tests are added up, a test without a score adding
    /// nothing; a result with neither has the score zero.
    pub fn headline_score(&self) -> (total: Total)
        ensures
            total@ == headline(self@),
    {
        match &self.score {
            Some(score) => score.total(),
            None => match &self.tests {
                Some(tests) => {
                    let mut sum: i128 = 0;
                    let mut i: usize = 0;
                    while i < tests.len()
                        invariant
                            i <= tests.len(),
                            sum == sum_of_scores(tests_view(tests@).take(i as int)),
                            -(i * 0x8000_0000_0000_0000) <= sum <= i * 0x8000_0000_0000_0000,
                        decreases tests.len() - i,
                    {
                        let ghost seen = tests_view(tests@).take(i + 1);
                        assert(seen.drop_last() =~= tests_view(tests@).take(i as int));
                        assert(seen.last() == tests[i as int]@);
                        match &tests[i].score {
                            Some(score) => {
                                sum = sum + score.micros as i128;
                            },
                            None => {},
                        }
                        i += 1;
                    }
                    assert(tests_view(tests@).take(i as int) =~= tests_view(tests@));
                    Total { micros: sum }
                },
                None => Total { micros: 0 },
            },
        }
    }
}

/// The headline score does not depend on how it is given: a result that
/// gives its score directly and a result that gives the same total only
/// through the scores of its tests have the same headline score, and it is
/// that total.
pub proof fn lemma_headline_either_way(direct: GraderResultView, derived: GraderResultView)
    requires
        direct.score is Some,
        derived.score is None,
        derived.tests is Some,
        direct.score->0 == sum_of_scores(derived.tests->0),
    ensures
        headline(direct) == headline(derived),
        headline(direct) == sum_of_scores(derived.tests->0),
{
}

} // verus!
