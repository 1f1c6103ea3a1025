//! Reading JSON text, one level at a time.
//!
//! The reading itself is done by `serde_json`. Each function here reads the
//! outermost level of a JSON text and hands back the pieces below it as they
//! were written, to be read in turn. What `serde_json` makes of a text is not
//! restated here: each result has a name, and the contracts of this crate
//! speak of the results by these names.

use vstd::prelude::*;
use std::collections::BTreeMap;
use serde_json::value::RawValue;

verus! {

/// A member of a JSON object: its name, and the JSON text of its value.
pub type Member = (String, Vec<u8>);

/// What the members of an object hold.
pub open spec fn members_view(members: Seq<Member>) -> Seq<(Seq<char>, Seq<u8>)> {
    members.map_values(|m: Member| (m.0@, m.1@))
}

/// What the elements of an array hold.
pub open spec fn elements_view(elements: Seq<Vec<u8>>) -> Seq<Seq<u8>> {
    elements.map_values(|e: Vec<u8>| e@)
}

/// The members of the JSON object that `text` writes, each with the JSON text
/// of its value; `None` if `text` is not one JSON object.
pub uninterp spec fn json_object(text: Seq<u8>) -> Option<Seq<(Seq<char>, Seq<u8>)>>;

/// The JSON texts of the elements of the JSON array that `text` writes;
/// `None` if `text` is not one JSON array.
pub uninterp spec fn json_array(text: Seq<u8>) -> Option<Seq<Seq<u8>>>;

/// The string that the JSON string `text` writes, escapes resolved; `None`
/// if `text` is not one JSON string.
pub uninterp spec fn json_string(text: Seq<u8>) -> Option<Seq<char>>;

/// Reads a JSON object.
///
/// Trusted: this is `serde_json::from_slice` at the type
/// `BTreeMap<String, Box<RawValue>>`. It succeeds if the whole of `text` is
/// one JSON object. The members come in the order of their names, each name
/// once, with the text of the value that was written last under that name.
/// The contract claims only that the outcome depends on `text` alone.
#[verifier::external_body]
pub(crate) fn read_object(text: &[u8]) -> (r: Option<Vec<Member>>)
    ensures
        r matches Some(members) ==> json_object(text@) == Some(members_view(members@)),
        r is None ==> json_object(text@) is None,
{
    match serde_json::from_slice::<BTreeMap<String, Box<RawValue>>>(text) {
        Ok(map) => Some(map.into_iter().map(|(k, v)| (k, v.get().as_bytes().to_vec())).collect()),
        Err(_) => None,
    }
}

/// Reads a JSON array.
///
/// Trusted: this is `serde_json::from_slice` at the type
/// `Vec<Box<RawValue>>`. It succeeds if the whole of `text` is one JSON
/// array, and gives the text of each element, in order. The contract claims
/// only that the outcome depends on `text` alone.
#[verifier::external_body]
pub(crate) fn read_array(text: &[u8]) -> (r: Option<Vec<Vec<u8>>>)
    ensures
        r matches Some(elements) ==> json_array(text@) == Some(elements_view(elements@)),
        r is None ==> json_array(text@) is None,
{
    match serde_json::from_slice::<Vec<Box<RawValue>>>(text) {
        Ok(items) => Some(items.into_iter().map(|v| v.get().as_bytes().to_vec()).collect()),
        Err(_) => None,
    }
}

/// Reads a JSON string.
///
/// Trusted: this is `serde_json::from_slice` at the type `String`. It
/// succeeds if the whole of `text` is one JSON string. The contract claims
/// only that the outcome depends on `text` alone.
#[verifier::external_body]
pub(crate) fn read_string(text: &[u8]) -> (r: Option<String>)
    ensures
        r matches Some(s) ==> json_string(text@) == Some(s@),
        r is None ==> json_string(text@) is None,
{
    match serde_json::from_slice::<String>(text) {
        Ok(s) => Some(s),
        Err(_) => None,
    }
}

} // verus!
