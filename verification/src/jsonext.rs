//! Trusted declarations for the JSON documents the remote service replies
//! with. The document type is opaque; what the classifier reads from a
//! document is named here, and every name is a fixed function of the
//! document value alone.

use vstd::prelude::*;

verus! {

#[verifier::external_type_specification]
#[verifier::external_body]
pub struct ExValue(serde_json::Value);

#[verifier::external_type_specification]
#[verifier::external_body]
pub struct ExJsonError(serde_json::Error);

/// What parsing a text as JSON yields: the document on success, nothing on
/// malformed input.
pub uninterp spec fn json_parsed(s: Seq<char>) -> Option<serde_json::Value>;

/// The value under a key of a document's top-level object, if any.
pub uninterp spec fn json_get(v: serde_json::Value, key: Seq<char>) -> Option<serde_json::Value>;

/// The integer a document denotes, if it is an integer number.
pub uninterp spec fn json_as_i64(v: serde_json::Value) -> Option<i64>;

/// The characters a document denotes, if it is a string.
pub uninterp spec fn json_as_str(v: serde_json::Value) -> Option<Seq<char>>;

/// The elements a document denotes, if it is an array.
pub uninterp spec fn json_as_array(v: serde_json::Value) -> Option<Seq<serde_json::Value>>;

/// Relies on serde_json::from_str for Value: parsing is a fixed function of
/// the input text.
#[verifier::external_body]
pub(crate) fn parse_json(s: &str) -> (r: Result<serde_json::Value, serde_json::Error>)
    ensures
        match r {
            Ok(v) => json_parsed(s@) == Some(v),
            Err(_) => json_parsed(s@) is None,
        },
{
    serde_json::from_str(s)
}

/// Relies on serde_json::Value::get with a string index: a lookup in the
/// document's top-level object, None when the document is no object or the
/// key is absent.
#[verifier::external_body]
pub(crate) fn value_get<'a>(v: &'a serde_json::Value, key: &str) -> (r: Option<&'a serde_json::Value>)
    ensures
        match r {
            Some(x) => json_get(*v, key@) == Some(*x),
            None => json_get(*v, key@) is None,
        },
{
    v.get(key)
}

/// Relies on serde_json::Value::as_i64: the value as a signed integer, when
/// it is an integer number in range.
#[verifier::external_body]
pub(crate) fn value_as_i64(v: &serde_json::Value) -> (r: Option<i64>)
    ensures
        r == json_as_i64(*v),
{
    v.as_i64()
}

/// Relies on serde_json::Value::as_str: the value's characters when it is a
/// string, cloned into an owned string.
#[verifier::external_body]
pub(crate) fn value_as_string(v: &serde_json::Value) -> (r: Option<String>)
    ensures
        match r {
            Some(s) => json_as_str(*v) == Some(s@),
            None => json_as_str(*v) is None,
        },
{
    v.as_str().map(|s| s.to_string())
}

/// Relies on serde_json::Value::as_array: the value's elements when it is an
/// array, cloned into an owned vector.
#[verifier::external_body]
pub(crate) fn value_as_array(v: &serde_json::Value) -> (r: Option<Vec<serde_json::Value>>)
    ensures
        match r {
            Some(a) => json_as_array(*v) == Some(a@),
            None => json_as_array(*v) is None,
        },
{
    v.as_array().cloned()
}

} // verus!
