//! Showing a result: the reduction of a [`GraderResult`] to the lines that a
//! screen prints, and the small state of a viewer that loads a result from a
//! file the user names.

use vstd::prelude::*;
use crate::gradescope::{
    headline, score_view, text_view, GraderResult, GraderResultView, TestResult, TestResultView,
};
use crate::ingest::{decode, result_of};
use crate::score::{decimal_text, Score};
use crate::text::push_char;

verus! {

/// What stands where a test has no number, no score or no highest score.
pub open spec fn placeholder() -> Seq<char> {
    seq!['-']
}

/// A string, or the [`placeholder`] where there is none.
pub open spec fn text_or_placeholder(text: Option<Seq<char>>) -> Seq<char> {
    match text {
        Some(text) => text,
        None => placeholder(),
    }
}

/// A score as decimal text, or the [`placeholder`] where there is none.
pub open spec fn score_or_placeholder(score: Option<int>) -> Seq<char> {
    match score {
        Some(score) => decimal_text(score),
        None => placeholder(),
    }
}

/// A string, or the empty string where there is none.
pub open spec fn text_or_empty(text: Option<Seq<char>>) -> Seq<char> {
    match text {
        Some(text) => text,
        None => Seq::<char>::empty(),
    }
}

/// The heading of a test: its number, its name, and its score out of the
/// highest score, as in `1) t1 (9.5 / 10)`. A missing name is empty; each
/// other missing part is a [`placeholder`].
pub open spec fn header_text(test: TestResultView) -> Seq<char> {
    text_or_placeholder(test.number) + seq![')', ' '] + text_or_empty(test.name) + seq![' ', '(']
        + score_or_placeholder(test.score) + seq![' ', '/', ' '] + score_or_placeholder(
        test.max_score,
    ) + seq![')']
}

/// One test, ready to be printed.
#[derive(Debug, Clone, PartialEq)]
pub struct TestRow {
    pub header: String,
    pub output: String,
}

/// A result, ready to be printed.
#[derive(Debug, Clone, PartialEq)]
pub struct Report {
    /// The headline score.
    pub score: String,
    /// One row for each test, in order; `None` if the result lists no tests.
    pub tests: Option<Vec<TestRow>>,
}

/// What a [`TestRow`] holds.
pub ghost struct TestRowView {
    pub header: Seq<char>,
    pub output: Seq<char>,
}

/// What a [`Report`] holds.
pub ghost struct ReportView {
    pub score: Seq<char>,
    pub tests: Option<Seq<TestRowView>>,
}

impl View for TestRow {
    type V = TestRowView;

    open spec fn view(&self) -> TestRowView {
        TestRowView { header: self.header@, output: self.output@ }
    }
}

impl View for Report {
    type V = ReportView;

    open spec fn view(&self) -> ReportView {
        ReportView {
            score: self.score@,
            tests: match self.tests {
                Some(rows) => Some(rows@.map_values(|row: TestRow| row@)),
                None => None,
            },
        }
    }
}

/// The row that shows `test`: its heading, and its output, empty if it has
/// none.
pub open spec fn row_of(test: TestResultView) -> TestRowView {
    TestRowView { header: header_text(test), output: text_or_empty(test.output) }
}

/// The report that shows `result`: its headline score as decimal text, and
/// a row for each of its tests.
pub open spec fn report_of(result: GraderResultView) -> ReportView {
    ReportView {
        score: decimal_text(headline(result)),
        tests: match result.tests {
            Some(tests) => Some(tests.map_values(|test: TestResultView| row_of(test))),
            None => None,
        },
    }
}

/// What happened in a viewer.
#[derive(Debug, Clone, PartialEq)]
pub enum Message {
    /// The user asks for the result to be loaded.
    RetrieveResults,
    /// The user has changed the path of the file.
    PathChanged(String),
    /// The file was read: its bytes, or `None` if there was no reading it.
    Retrieved(Option<Vec<u8>>),
}

/// What the caller of a viewer is to do next.
#[derive(Debug, Clone, PartialEq)]
pub enum Request {
    /// Nothing.
    Nothing,
    /// Read the file at the given path, and answer with
    /// [`Message::Retrieved`].
    Read(String),
}

/// A viewer of results that were written to a file.
#[derive(Debug, Clone, PartialEq)]
pub struct Visualizer {
    /// The result that is shown, if one was loaded.
    pub grader_result: Option<GraderResult>,
    /// The file to load the result from.
    pub retrieve_path: String,
}

fn push_text_or_placeholder(s: &mut String, text: &Option<String>)
    ensures
        final(s)@ == old(s)@ + text_or_placeholder(text_view(*text)),
{
    match text {
        Some(text) => s.append(text.as_str()),
        None => push_char(s, '-'),
    }
}

fn push_score_or_placeholder(s: &mut String, score: &Option<Score>)
    ensures
        final(s)@ == old(s)@ + score_or_placeholder(score_view(*score)),
{
    match score {
        Some(score) => {
            let text = score.render();
            s.append(text.as_str());
        },
        None => push_char(s, '-'),
    }
}

fn text_or_default(text: &Option<String>) -> (s: String)
    ensures
        s@ == text_or_empty(text_view(*text)),
{
    match text {
        Some(text) => text.clone(),
        None => String::new(),
    }
}

/// What a [`Message`] holds.
pub ghost enum MessageView {
    RetrieveResults,
    PathChanged(Seq<char>),
    Retrieved(Option<Seq<u8>>),
}

/// What a [`Request`] holds.
pub ghost enum RequestView {
    Nothing,
    Read(Seq<char>),
}

/// What a [`Visualizer`] holds.
pub ghost struct VisualizerView {
    pub grader_result: Option<GraderResultView>,
    pub retrieve_path: Seq<char>,
}

impl View for Message {
    type V = MessageView;

    open spec fn view(&self) -> MessageView {
        match self {
            Message::RetrieveResults => MessageView::RetrieveResults,
            Message::PathChanged(path) => MessageView::PathChanged(path@),
            Message::Retrieved(content) => MessageView::Retrieved(
                match content {
                    Some(bytes) => Some(bytes@),
                    None => None,
                },
            ),
        }
    }
}

impl View for Request {
    type V = RequestView;

    open spec fn view(&self) -> RequestView {
        match self {
            Request::Nothing => RequestView::Nothing,
            Request::Read(path) => RequestView::Read(path@),
        }
    }
}

impl View for Visualizer {
    type V = VisualizerView;

    open spec fn view(&self) -> VisualizerView {
        VisualizerView {
            grader_result: match self.grader_result {
                Some(result) => Some(result@),
                None => None,
            },
            retrieve_path: self.retrieve_path@,
        }
    }
}

/// The viewer after a message, and the request that answers it.
///
/// When the user asks for the result, the file at the path as typed is to
/// be read. What was read replaces the result on display: by the result
/// that the file holds, or by none if the file could not be read or holds no
/// result.
pub open spec fn viewer_step(viewer: VisualizerView, message: MessageView) -> (
    VisualizerView,
    RequestView,
) {
    match message {
        MessageView::RetrieveResults => (viewer, RequestView::Read(viewer.retrieve_path)),
        MessageView::PathChanged(path) => (
            VisualizerView { retrieve_path: path, ..viewer },
            RequestView::Nothing,
        ),
        MessageView::Retrieved(content) => (
            VisualizerView {
                grader_result: match content {
                    Some(bytes) => result_of(bytes),
                    None => None,
                },
                ..viewer
            },
            RequestView::Nothing,
        ),
    }
}

impl Default for Visualizer {
    /// A viewer with nothing typed and nothing on display.
    fn default() -> (viewer: Visualizer)
        ensures
            viewer@ == (VisualizerView {
                grader_result: None,
                retrieve_path: Seq::<char>::empty(),
            }),
    {
        Visualizer::new()
    }
}

impl Visualizer {
    /// A viewer with nothing typed and nothing on display.
    pub fn new() -> (viewer: Visualizer)
        ensures
            viewer@ == (VisualizerView {
                grader_result: None,
                retrieve_path: Seq::<char>::empty(),
            }),
    {
        Visualizer { grader_result: None, retrieve_path: String::new() }
    }

    /// Takes in what happened, and answers with what the caller is to do
    /// next.
    pub fn update(&mut self, message: Message) -> (request: Request)
        ensures
            (final(self)@, request@) == viewer_step(old(self)@, message@),
    {
        match message {
            Message::RetrieveResults => Request::Read(self.retrieve_path.clone()),
            Message::PathChanged(path) => {
                self.retrieve_path = path;
                Request::Nothing
            },
            Message::Retrieved(content) => {
                self.grader_result = match content {
                    Some(bytes) => decode(bytes.as_slice()),
                    None => None,
                };
                Request::Nothing
            },
        }
    }

    /// The heading of a test.
    pub fn create_test_header(test: &TestResult) -> (header: String)
        ensures
            header@ == header_text(test@),
    {
        let mut header = String::new();
        push_text_or_placeholder(&mut header, &test.number);
        push_char(&mut header, ')');
        push_char(&mut header, ' ');
        let name = text_or_default(&test.name);
        header.append(name.as_str());
        push_char(&mut header, ' ');
        push_char(&mut header, '(');
        push_score_or_placeholder(&mut header, &test.score);
        push_char(&mut header, ' ');
        push_char(&mut header, '/');
        push_char(&mut header, ' ');
        push_score_or_placeholder(&mut header, &test.max_score);
        push_char(&mut header, ')');
        assert(header@ =~= header_text(test@));
        header
    }

    /// The row that shows a test.
    pub fn view_test(test: &TestResult) -> (row: TestRow)
        ensures
            row@ == row_of(test@),
    {
        TestRow {
            header: Self::create_test_header(test),
            output: text_or_default(&test.output),
        }
    }

    /// The report that shows a result. Any result can be shown, whichever of
    /// its fields are missing.
    pub fn view_result(result: &GraderResult) -> (report: Report)
        ensures
            report@ == report_of(result@),
    {
        let score = result.headline_score().render();
        let tests = match &result.tests {
            Some(tests) => {
                let mut rows: Vec<TestRow> = Vec::new();
                let mut i: usize = 0;
                while i < tests.len()
                    invariant
                        i <= tests.len(),
                        rows.len() == i,
                        forall|j: int| 0 <= j < i ==> (#[trigger] rows[j])@ == row_of(tests[j]@),
                    decreases tests.len() - i,
                {
                    rows.push(Self::view_test(&tests[i]));
                    i += 1;
                }
                assert(rows@.map_values(|row: TestRow| row@) =~= result@.tests->0.map_values(
                    |test: TestResultView| row_of(test),
                ));
                Some(rows)
            },
            None => None,
        };
        Report { score, tests }
    }
}

} // verus!
