//! Trusted access to JSON documents through serde_json.
//!
//! The endpoints of both API families answer with JSON bodies, and the
//! client reads only a handful of plain fields out of them.  What a JSON
//! parse returns takes pages to state, but it is a function of the
//! document text alone, so each extraction is given a name here, and the
//! wrapper around the serde_json call promises that its result is that
//! name applied to the text.

use vstd::prelude::*;

verus! {

/// Whether `s` is a well-formed JSON document.
pub uninterp spec fn json_doc_valid(s: Seq<char>) -> bool;

/// The string field `key` of the JSON document `s`, or `None` when `s` is
/// not valid JSON, has no such field, or the field is not a string.
pub uninterp spec fn json_string_field_of(s: Seq<char>, key: Seq<char>) -> Option<Seq<char>>;

/// The string field `inner` of the object field `outer` of the JSON
/// document `s`, or `None` when any step of that path is missing or of
/// the wrong shape.
pub uninterp spec fn json_nested_string_field_of(
    s: Seq<char>,
    outer: Seq<char>,
    inner: Seq<char>,
) -> Option<Seq<char>>;

/// The unsigned integer field `key` of the JSON document `s`, or `None`
/// when missing or not an unsigned integer.
pub uninterp spec fn json_u64_field_of(s: Seq<char>, key: Seq<char>) -> Option<u64>;

/// The field `key` of the JSON document `s` as an array of strings, or
/// `None` when `s` is not valid JSON, the field is missing, it is not an
/// array, or any element is not a string.
pub uninterp spec fn json_string_array_field_of(s: Seq<char>, key: Seq<char>) -> Option<
    Seq<Seq<char>>,
>;

/// Relies on serde_json's `from_str::<Value>`: whether the text parses as
/// a JSON document.
#[verifier::external_body]
pub fn json_is_valid(s: &str) -> (r: bool)
    ensures
        r == json_doc_valid(s@),
{
    serde_json::from_str::<serde_json::Value>(s).is_ok()
}

/// Relies on serde_json's `from_str::<Value>`, `Value::get` and
/// `Value::as_str` for the string field `key` of the document `s`.
#[verifier::external_body]
pub fn json_string_field(s: &str, key: &str) -> (r: Option<String>)
    ensures
        (match r {
            Some(v) => json_string_field_of(s@, key@) == Some(v@),
            None => json_string_field_of(s@, key@) is None,
        }),
{
    match serde_json::from_str::<serde_json::Value>(s) {
        Ok(doc) => match doc.get(key) {
            Some(field) => field.as_str().map(|t| t.to_string()),
            None => None,
        },
        Err(_) => None,
    }
}

/// Relies on serde_json's `from_str::<Value>`, `Value::get` and
/// `Value::as_str` for the string field `inner` inside the object field
/// `outer` of the document `s`.
#[verifier::external_body]
pub fn json_nested_string_field(s: &str, outer: &str, inner: &str) -> (r: Option<String>)
    ensures
        (match r {
            Some(v) => json_nested_string_field_of(s@, outer@, inner@) == Some(v@),
            None => json_nested_string_field_of(s@, outer@, inner@) is None,
        }),
{
    match serde_json::from_str::<serde_json::Value>(s) {
        Ok(doc) => match doc.get(outer) {
            Some(field) => field.get(inner).and_then(|f| f.as_str()).map(|t| t.to_string()),
            None => None,
        },
        Err(_) => None,
    }
}

/// Relies on serde_json's `from_str::<Value>`, `Value::get` and
/// `Value::as_u64` for the unsigned integer field `key` of the document
/// `s`.
#[verifier::external_body]
pub fn json_u64_field(s: &str, key: &str) -> (r: Option<u64>)
    ensures
        r == json_u64_field_of(s@, key@),
{
    match serde_json::from_str::<serde_json::Value>(s) {
        Ok(doc) => doc.get(key).and_then(|f| f.as_u64()),
        Err(_) => None,
    }
}

/// Relies on serde_json's `from_str::<Value>`, `Value::get`,
/// `Value::as_array` and `Value::as_str` for the field `key` of the
/// document `s` as an array of strings.
#[verifier::external_body]
pub fn json_string_array_field(s: &str, key: &str) -> (r: Option<Vec<String>>)
    ensures
        (match r {
            Some(v) => json_string_array_field_of(s@, key@) == Some(v.deep_view()),
            None => json_string_array_field_of(s@, key@) is None,
        }),
{
    match serde_json::from_str::<serde_json::Value>(s) {
        Ok(doc) => match doc.get(key) {
            Some(field) => match field.as_array() {
                Some(items) => items.iter().map(|i| i.as_str().map(|t| t.to_string())).collect(),
                None => None,
            },
            None => None,
        },
        Err(_) => None,
    }
}

} // verus!
