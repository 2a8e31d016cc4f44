//! Reading JSON documents. The parsing and the lookups are `serde_json`'s;
//! what they return is named here so that the callers' contracts can follow a
//! reply from its text to the field that holds the answer.

use vstd::prelude::*;
use crate::text::text_of;

verus! {

/// `serde_json::Value`, a JSON document or a part of one. Nothing is known
/// of what is inside but through the functions below.
#[verifier::external_type_specification]
#[verifier::external_body]
pub struct ExValue(serde_json::Value);

/// `serde_json::Error`, why a text is no JSON document.
#[verifier::external_type_specification]
#[verifier::external_body]
pub struct ExError(serde_json::Error);

/// The JSON document that `text` holds; `None` where `text` is no JSON.
pub uninterp spec fn parsed(text: Seq<char>) -> Option<serde_json::Value>;

/// What stands under `key` in the JSON value `v`.
pub uninterp spec fn member(v: serde_json::Value, key: Seq<char>) -> serde_json::Value;

/// What stands at position `index` in the JSON value `v`.
pub uninterp spec fn element(v: serde_json::Value, index: int) -> serde_json::Value;

/// The text of the JSON value `v`; `None` where `v` is not a string.
pub uninterp spec fn string_of(v: serde_json::Value) -> Option<Seq<char>>;

/// `serde_json::from_str`, read as a `Value`. The contract claims that the
/// outcome depends on the text alone: the same text always gives the same
/// document, or always fails.
#[verifier::external_body]
pub(crate) fn parse(text: &str) -> (r: Result<serde_json::Value, serde_json::Error>)
    ensures
        match r {
            Ok(doc) => parsed(text@) == Some(doc),
            Err(_) => parsed(text@) is None,
        },
{
    serde_json::from_str(text)
}

/// Indexing a `serde_json::Value` with a string. It never fails: where `v`
/// is no object or lacks the key, the value it yields is JSON's null. The
/// contract claims only that the outcome depends on `v` and `key` alone.
#[verifier::external_body]
pub(crate) fn get_member<'a>(v: &'a serde_json::Value, key: &str) -> (r: &'a serde_json::Value)
    ensures
        *r == member(*v, key@),
{
    &v[key]
}

/// Indexing a `serde_json::Value` with a number. It never fails: where `v`
/// is no array or is too short, the value it yields is JSON's null. The
/// contract claims only that the outcome depends on `v` and `index` alone.
#[verifier::external_body]
pub(crate) fn get_element<'a>(v: &'a serde_json::Value, index: usize) -> (r: &'a serde_json::Value)
    ensures
        *r == element(*v, index as int),
{
    &v[index]
}

/// `serde_json::Value::as_str`, with the text copied out: the string that
/// `v` is, or `None` where it is anything else.
#[verifier::external_body]
pub(crate) fn get_string(v: &serde_json::Value) -> (r: Option<String>)
    ensures
        text_of(r) == string_of(*v),
{
    v.as_str().map(String::from)
}

} // verus!
