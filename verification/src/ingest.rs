//! Reading a result from the artifact that a run leaves behind.
//!
//! The artifact is the JSON text of one object. Every field of a result is
//! optional: a member that is missing or `null` leaves its field empty, and
//! members that a result has no field for are passed over. A member that is
//! there but does not hold what its field takes makes the whole artifact
//! malformed.

use vstd::prelude::*;
use crate::error::PipelineError;
use crate::gradescope::{
    bytes_view, score_view, tests_view, text_view, GraderResult, GraderResultView, TestResult,
    TestResultView, Visibility,
};
use crate::json::{
    elements_view, json_array, json_object, json_string, members_view, read_array, read_object,
    read_string, Member,
};
use crate::number::{count_of, parse_count, parse_score, score_of};
use crate::score::Score;
use crate::text::texts_view;

verus! {

/// The JSON text `null`.
pub open spec fn null_text() -> Seq<u8> {
    seq![110u8, 117u8, 108u8, 108u8]
}

/// The text of the value of the first member named `key`.
pub open spec fn member(members: Seq<(Seq<char>, Seq<u8>)>, key: Seq<char>) -> Option<Seq<u8>>
    decreases members.len(),
{
    if members.len() == 0 {
        None
    } else if members[0].0 == key {
        Some(members[0].1)
    } else {
        member(members.skip(1), key)
    }
}

/// The text that a field is read from: that of the member named `key`,
/// unless there is none or it is `null`.
pub open spec fn field(members: Seq<(Seq<char>, Seq<u8>)>, key: Seq<char>) -> Option<Seq<u8>> {
    match member(members, key) {
        Some(text) => if text == null_text() {
            None
        } else {
            Some(text)
        },
        None => None,
    }
}

/// What reading a field that is there comes to: the outer `None` says that
/// it cannot be read.
pub open spec fn present<T>(value: Option<T>) -> Option<Option<T>> {
    match value {
        Some(value) => Some(Some(value)),
        None => None,
    }
}

/// The score that an optional field holds: `Some(None)` if the field is not
/// there.
pub open spec fn optional_score(text: Option<Seq<u8>>) -> Option<Option<int>> {
    match text {
        Some(text) => present(score_of(text)),
        None => Some(None),
    }
}

/// The count that an optional field holds.
pub open spec fn optional_count(text: Option<Seq<u8>>) -> Option<Option<nat>> {
    match text {
        Some(text) => present(count_of(text)),
        None => Some(None),
    }
}

/// The string that an optional field holds.
pub open spec fn optional_string(text: Option<Seq<u8>>) -> Option<Option<Seq<char>>> {
    match text {
        Some(text) => present(json_string(text)),
        None => Some(None),
    }
}

/// The visibility that an optional field holds.
pub open spec fn optional_visibility(text: Option<Seq<u8>>) -> Option<Option<Visibility>> {
    match text {
        Some(text) => present(visibility_of(text)),
        None => Some(None),
    }
}

/// The tags that an optional field holds.
pub open spec fn optional_tags(text: Option<Seq<u8>>) -> Option<Option<Seq<Seq<char>>>> {
    match text {
        Some(text) => present(tags_of(text)),
        None => Some(None),
    }
}

/// The test results that an optional field holds.
pub open spec fn optional_tests(text: Option<Seq<u8>>) -> Option<Option<Seq<TestResultView>>> {
    match text {
        Some(text) => present(tests_of(text)),
        None => Some(None),
    }
}

/// The visibility with the given name.
pub open spec fn visibility_named(name: Seq<char>) -> Option<Visibility> {
    if name == "hidden"@ {
        Some(Visibility::Hidden)
    } else if name == "after_published"@ {
        Some(Visibility::AfterPublished)
    } else if name == "after_due_date"@ {
        Some(Visibility::AfterDueDate)
    } else if name == "visible"@ {
        Some(Visibility::Visible)
    } else {
        None
    }
}

/// The visibility that a JSON text writes: a string that names one.
pub open spec fn visibility_of(text: Seq<u8>) -> Option<Visibility> {
    match json_string(text) {
        Some(name) => visibility_named(name),
        None => None,
    }
}

/// The tags that a JSON text writes: an array of strings.
pub open spec fn tags_of(text: Seq<u8>) -> Option<Seq<Seq<char>>> {
    match json_array(text) {
        Some(elements) => if forall|i: int|
            0 <= i < elements.len() ==> json_string(#[trigger] elements[i]) is Some {
            Some(elements.map_values(|element: Seq<u8>| json_string(element)->0))
        } else {
            None
        },
        None => None,
    }
}

/// The test result that the members of an object write.
pub open spec fn test_from(members: Seq<(Seq<char>, Seq<u8>)>) -> Option<TestResultView> {
    let score = optional_score(field(members, "score"@));
    let max_score = optional_score(field(members, "max_score"@));
    let name = optional_string(field(members, "name"@));
    let number = optional_string(field(members, "number"@));
    let output = optional_string(field(members, "output"@));
    let tags = optional_tags(field(members, "tags"@));
    let visibility = optional_visibility(field(members, "visibility"@));
    if score is Some && max_score is Some && name is Some && number is Some && output is Some
        && tags is Some && visibility is Some {
        Some(
            TestResultView {
                score: score->0,
                max_score: max_score->0,
                name: name->0,
                number: number->0,
                output: output->0,
                tags: tags->0,
                visibility: visibility->0,
                extra_data: field(members, "extra_data"@),
            },
        )
    } else {
        None
    }
}

/// The test result that a JSON text writes: an object.
pub open spec fn test_of(text: Seq<u8>) -> Option<TestResultView> {
    match json_object(text) {
        Some(members) => test_from(members),
        None => None,
    }
}

/// The test results that a JSON text writes: an array of objects.
pub open spec fn tests_of(text: Seq<u8>) -> Option<Seq<TestResultView>> {
    match json_array(text) {
        Some(elements) => if forall|i: int|
            0 <= i < elements.len() ==> test_of(#[trigger] elements[i]) is Some {
            Some(elements.map_values(|element: Seq<u8>| test_of(element)->0))
        } else {
            None
        },
        None => None,
    }
}

/// The result that the members of an object write.
pub open spec fn result_from(members: Seq<(Seq<char>, Seq<u8>)>) -> Option<GraderResultView> {
    let score = optional_score(field(members, "score"@));
    let execution_time = optional_count(field(members, "execution_time"@));
    let output = optional_string(field(members, "output"@));
    let visibility = optional_visibility(field(members, "visibility"@));
    let stdout_visibility = optional_visibility(field(members, "stdout_visibility"@));
    let tests = optional_tests(field(members, "tests"@));
    if score is Some && execution_time is Some && output is Some && visibility is Some
        && stdout_visibility is Some && tests is Some {
        Some(
            GraderResultView {
                score: score->0,
                execution_time: execution_time->0,
                output: output->0,
                visibility: visibility->0,
                stdout_visibility: stdout_visibility->0,
                extra_data: field(members, "extra_data"@),
                tests: tests->0,
            },
        )
    } else {
        None
    }
}

/// The error that taking in an artifact without a result ends in.
pub open spec fn ingest_error(content: Option<&[u8]>) -> PipelineError {
    if content is None {
        PipelineError::ArtifactUnreadable
    } else {
        PipelineError::ArtifactMalformed
    }
}

/// The result that an artifact holds: the artifact is the JSON text of an
/// object whose members write a result.
pub open spec fn result_of(text: Seq<u8>) -> Option<GraderResultView> {
    match json_object(text) {
        Some(members) => result_from(members),
        None => None,
    }
}


fn is_null(text: &Vec<u8>) -> (r: bool)
    ensures
        r == (text@ == null_text()),
{
    let r = text.len() == 4 && text[0] == 110 && text[1] == 117 && text[2] == 108 && text[3]
        == 108;
    proof {
        if r {
            assert(text@ =~= null_text());
        }
    }
    r
}

/// The text that the field named `key` is read from.
fn find_field<'a>(members: &'a Vec<Member>, key: &str) -> (r: Option<&'a Vec<u8>>)
    ensures
        match r {
            Some(text) => field(members_view(members@), key@) == Some(text@),
            None => field(members_view(members@), key@) is None,
        },
{
    let wanted = String::from_str(key);
    let ghost all = members_view(members@);
    let mut i: usize = 0;
    assert(all.skip(0) =~= all);
    while i < members.len()
        invariant
            i <= members.len(),
            all == members_view(members@),
            wanted@ == key@,
            member(all, key@) == member(all.skip(i as int), key@),
        decreases members.len() - i,
    {
        assert(all.skip(i as int)[0] == all[i as int]);
        assert(all[i as int] == (members[i as int].0@, members[i as int].1@));
        assert(all.skip(i as int).skip(1) =~= all.skip(i + 1));
        if members[i].0 == wanted {
            if is_null(&members[i].1) {
                return None;
            } else {
                return Some(&members[i].1);
            }
        }
        i += 1;
    }
    None
}

/// The visibility with the given name.
pub fn visibility_from_name(name: &String) -> (r: Option<Visibility>)
    ensures
        r == visibility_named(name@),
{
    if *name == String::from_str("hidden") {
        Some(Visibility::Hidden)
    } else if *name == String::from_str("after_published") {
        Some(Visibility::AfterPublished)
    } else if *name == String::from_str("after_due_date") {
        Some(Visibility::AfterDueDate)
    } else if *name == String::from_str("visible") {
        Some(Visibility::Visible)
    } else {
        None
    }
}

fn score_field(members: &Vec<Member>, key: &str) -> (r: Option<Option<Score>>)
    ensures
        match r {
            Some(score) => optional_score(field(members_view(members@), key@)) == Some(
                score_view(score),
            ),
            None => optional_score(field(members_view(members@), key@)) is None,
        },
{
    match find_field(members, key) {
        None => Some(None),
        Some(text) => match parse_score(text.as_slice()) {
            Some(score) => Some(Some(score)),
            None => None,
        },
    }
}

fn count_field(members: &Vec<Member>, key: &str) -> (r: Option<Option<u32>>)
    ensures
        match r {
            Some(Some(count)) => optional_count(field(members_view(members@), key@)) == Some(
                Some(count as nat),
            ),
            Some(None) => optional_count(field(members_view(members@), key@)) == Some(
                None::<nat>,
            ),
            None => optional_count(field(members_view(members@), key@)) is None,
        },
{
    match find_field(members, key) {
        None => Some(None),
        Some(text) => match parse_count(text.as_slice()) {
            Some(count) => Some(Some(count)),
            None => None,
        },
    }
}

fn string_field(members: &Vec<Member>, key: &str) -> (r: Option<Option<String>>)
    ensures
        match r {
            Some(text) => optional_string(field(members_view(members@), key@)) == Some(
                text_view(text),
            ),
            None => optional_string(field(members_view(members@), key@)) is None,
        },
{
    match find_field(members, key) {
        None => Some(None),
        Some(text) => match read_string(text.as_slice()) {
            Some(s) => Some(Some(s)),
            None => None,
        },
    }
}

fn visibility_field(members: &Vec<Member>, key: &str) -> (r: Option<Option<Visibility>>)
    ensures
        r == optional_visibility(field(members_view(members@), key@)),
{
    match find_field(members, key) {
        None => Some(None),
        Some(text) => match read_string(text.as_slice()) {
            Some(name) => match visibility_from_name(&name) {
                Some(visibility) => Some(Some(visibility)),
                None => None,
            },
            None => None,
        },
    }
}

fn raw_field(members: &Vec<Member>, key: &str) -> (r: Option<Vec<u8>>)
    ensures
        bytes_view(r) == field(members_view(members@), key@),
{
    match find_field(members, key) {
        None => None,
        Some(text) => Some(copy_bytes(text)),
    }
}

fn copy_bytes(bytes: &Vec<u8>) -> (copy: Vec<u8>)
    ensures
        copy@ == bytes@,
{
    let mut copy: Vec<u8> = Vec::new();
    let mut i: usize = 0;
    while i < bytes.len()
        invariant
            i <= bytes.len(),
            copy@ == bytes@.take(i as int),
        decreases bytes.len() - i,
    {
        copy.push(bytes[i]);
        assert(bytes@.take(i + 1) =~= bytes@.take(i as int).push(bytes@[i as int]));
        i += 1;
    }
    assert(bytes@.take(i as int) =~= bytes@);
    copy
}

/// Reads tags: an array of strings.
fn read_tags(text: &Vec<u8>) -> (r: Option<Vec<String>>)
    ensures
        match r {
            Some(tags) => tags_of(text@) == Some(texts_view(tags@)),
            None => tags_of(text@) is None,
        },
{
    let elements = match read_array(text.as_slice()) {
        Some(elements) => elements,
        None => {
            return None;
        },
    };
    let ghost texts = elements_view(elements@);
    let mut tags: Vec<String> = Vec::new();
    let mut i: usize = 0;
    while i < elements.len()
        invariant
            i <= elements.len(),
            tags.len() == i,
            texts == elements_view(elements@),
            json_array(text@) == Some(texts),
            forall|j: int| 0 <= j < i ==> json_string(#[trigger] texts[j]) == Some(tags[j]@),
        decreases elements.len() - i,
    {
        assert(texts[i as int] == elements[i as int]@);
        match read_string(elements[i].as_slice()) {
            Some(tag) => {
                tags.push(tag);
            },
            None => {
                return None;
            },
        }
        i += 1;
    }
    assert(texts.map_values(|element: Seq<u8>| json_string(element)->0) =~= texts_view(tags@));
    Some(tags)
}

fn tags_field(members: &Vec<Member>, key: &str) -> (r: Option<Option<Vec<String>>>)
    ensures
        match r {
            Some(Some(tags)) => optional_tags(field(members_view(members@), key@)) == Some(
                Some(texts_view(tags@)),
            ),
            Some(None) => optional_tags(field(members_view(members@), key@)) == Some(
                None::<Seq<Seq<char>>>,
            ),
            None => optional_tags(field(members_view(members@), key@)) is None,
        },
{
    match find_field(members, key) {
        None => Some(None),
        Some(text) => match read_tags(text) {
            Some(tags) => Some(Some(tags)),
            None => None,
        },
    }
}

/// Reads a test result from the members of an object.
pub fn test_from_members(members: &Vec<Member>) -> (r: Option<TestResult>)
    ensures
        match r {
            Some(test) => test_from(members_view(members@)) == Some(test@),
            None => test_from(members_view(members@)) is None,
        },
{
    let score = score_field(members, "score")?;
    let max_score = score_field(members, "max_score")?;
    let name = string_field(members, "name")?;
    let number = string_field(members, "number")?;
    let output = string_field(members, "output")?;
    let tags = tags_field(members, "tags")?;
    let visibility = visibility_field(members, "visibility")?;
    let extra_data = raw_field(members, "extra_data");
    Some(TestResult { score, max_score, name, number, output, tags, visibility, extra_data })
}

/// Reads test results: an array of objects.
fn read_tests(text: &Vec<u8>) -> (r: Option<Vec<TestResult>>)
    ensures
        match r {
            Some(tests) => tests_of(text@) == Some(tests_view(tests@)),
            None => tests_of(text@) is None,
        },
{
    let elements = match read_array(text.as_slice()) {
        Some(elements) => elements,
        None => {
            return None;
        },
    };
    let ghost texts = elements_view(elements@);
    let mut tests: Vec<TestResult> = Vec::new();
    let mut i: usize = 0;
    while i < elements.len()
        invariant
            i <= elements.len(),
            tests.len() == i,
            texts == elements_view(elements@),
            json_array(text@) == Some(texts),
            forall|j: int| 0 <= j < i ==> test_of(#[trigger] texts[j]) == Some(tests[j]@),
        decreases elements.len() - i,
    {
        assert(texts[i as int] == elements[i as int]@);
        let members = match read_object(elements[i].as_slice()) {
            Some(members) => members,
            None => {
                return None;
            },
        };
        match test_from_members(&members) {
            Some(test) => {
                tests.push(test);
            },
            None => {
                return None;
            },
        }
        i += 1;
    }
    assert(texts.map_values(|element: Seq<u8>| test_of(element)->0) =~= tests_view(tests@));
    Some(tests)
}

fn tests_field(members: &Vec<Member>, key: &str) -> (r: Option<Option<Vec<TestResult>>>)
    ensures
        match r {
            Some(Some(tests)) => optional_tests(field(members_view(members@), key@)) == Some(
                Some(tests_view(tests@)),
            ),
            Some(None) => optional_tests(field(members_view(members@), key@)) == Some(
                None::<Seq<TestResultView>>,
            ),
            None => optional_tests(field(members_view(members@), key@)) is None,
        },
{
    match find_field(members, key) {
        None => Some(None),
        Some(text) => match read_tests(text) {
            Some(tests) => Some(Some(tests)),
            None => None,
        },
    }
}

/// Reads a result from the members of an object.
pub fn result_from_members(members: &Vec<Member>) -> (r: Option<GraderResult>)
    ensures
        match r {
            Some(result) => result_from(members_view(members@)) == Some(result@),
            None => result_from(members_view(members@)) is None,
        },
{
    let score = score_field(members, "score")?;
    let execution_time = count_field(members, "execution_time")?;
    let output = string_field(members, "output")?;
    let visibility = visibility_field(members, "visibility")?;
    let stdout_visibility = visibility_field(members, "stdout_visibility")?;
    let tests = tests_field(members, "tests")?;
    let extra_data = raw_field(members, "extra_data");
    Some(
        GraderResult {
            score,
            execution_time,
            output,
            visibility,
            stdout_visibility,
            extra_data,
            tests,
        },
    )
}

/// Reads the result that an artifact holds.
///
/// The artifact holds a result if it is the JSON text of an object and each
/// member that a result has a field for holds what that field takes, or is
/// `null`. Otherwise there is no result.
pub fn decode(text: &[u8]) -> (r: Option<GraderResult>)
    ensures
        match r {
            Some(result) => result_of(text@) == Some(result@),
            None => result_of(text@) is None,
        },
{
    match read_object(text) {
        Some(members) => result_from_members(&members),
        None => None,
    }
}

/// Takes in what was found where a run is to leave its artifact: the bytes
/// of the file, or `None` if no file could be read.
///
/// The result is that which the artifact holds. Without a file the error is
/// [`PipelineError::ArtifactUnreadable`]; with a file that holds no result
/// it is [`PipelineError::ArtifactMalformed`].
pub fn ingest(content: Option<&[u8]>) -> (r: Result<GraderResult, PipelineError>)
    ensures
        match r {
            Ok(result) => content is Some && result_of(content->0@) == Some(result@),
            Err(error) => error == ingest_error(content),
        },
        r is Err <==> (content is None || result_of(content->0@) is None),
{
    match content {
        None => Err(PipelineError::ArtifactUnreadable),
        Some(text) => match decode(text) {
            Some(result) => Ok(result),
            None => Err(PipelineError::ArtifactMalformed),
        },
    }
}

} // verus!
