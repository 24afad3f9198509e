//! Reply classification: a reply document carrying a top-level `error` key
//! is decoded into the structured API error; any other document is the
//! operation's success payload.

use vstd::prelude::*;

use crate::error::{ApiError, LastfmError};
use crate::jsonext::{json_as_array, json_as_i64, json_as_str, json_get, json_parsed, parse_json,
    value_as_array, value_as_i64, value_as_string, value_get};

verus! {

/// A classified reply: exactly one side is populated.
#[derive(Debug)]
pub enum APIResponse<T> {
    Success(T),
    Error(ApiError),
}

/// Whether a reply document announces a failure.
pub open spec fn has_error_key(doc: serde_json::Value) -> bool {
    json_get(doc, "error"@) is Some
}

/// The error document's fields, when all three decode: the integer code, the
/// message, and the links array.
pub open spec fn decoded_api_error(doc: serde_json::Value) -> Option<(
    i64,
    Seq<char>,
    Seq<serde_json::Value>,
)> {
    match json_get(doc, "error"@) {
        Some(ev) => match json_as_i64(ev) {
            Some(code) => match json_get(doc, "message"@) {
                Some(mv) => match json_as_str(mv) {
                    Some(msg) => match json_get(doc, "links"@) {
                        Some(lv) => match json_as_array(lv) {
                            Some(links) => Some((code, msg, links)),
                            None => None,
                        },
                        None => None,
                    },
                    None => None,
                },
                None => None,
            },
            None => None,
        },
        None => None,
    }
}

/// Classify a decoded reply document. A document without a top-level
/// `error` key is the success payload, verbatim; one with the key is decoded
/// into the structured error, and a malformed error document is a decode
/// failure.
pub fn classify_value(doc: serde_json::Value) -> (r: Result<
    APIResponse<serde_json::Value>,
    LastfmError,
>)
    ensures
        !has_error_key(doc) ==> (r matches Ok(resp) && resp matches
            APIResponse::Success(payload) && payload == doc),
        has_error_key(doc) ==> match decoded_api_error(doc) {
            Some(fields) => (r matches Ok(resp) && resp matches APIResponse::Error(e)
                && e.error == fields.0 && e.message@ == fields.1 && e.links@ == fields.2),
            None => (r matches Err(e) && e matches LastfmError::Decode(_)),
        },
{
    let error_value = match value_get(&doc, "error") {
        Some(v) => v,
        None => {
            return Ok(APIResponse::Success(doc));
        },
    };
    let code = match value_as_i64(error_value) {
        Some(c) => c,
        None => {
            return Err(LastfmError::Decode("the error code is not an integer".to_owned()));
        },
    };
    let message = match value_get(&doc, "message") {
        Some(mv) => match value_as_string(mv) {
            Some(m) => m,
            None => {
                return Err(LastfmError::Decode("the error message is not a string".to_owned()));
            },
        },
        None => {
            return Err(LastfmError::Decode("the error document has no message".to_owned()));
        },
    };
    let links = match value_get(&doc, "links") {
        Some(lv) => match value_as_array(lv) {
            Some(ls) => ls,
            None => {
                return Err(LastfmError::Decode("the error links are not an array".to_owned()));
            },
        },
        None => {
            return Err(LastfmError::Decode("the error document has no links".to_owned()));
        },
    };
    Ok(APIResponse::Error(ApiError { error: code, message, links }))
}

/// Parse a raw reply body and classify the document. Malformed JSON is a
/// parse failure; the rest is `classify_value`.
pub fn classify_reply(body: &str) -> (r: Result<APIResponse<serde_json::Value>, LastfmError>)
    ensures
        json_parsed(body@) is None ==> (r matches Err(e) && e matches LastfmError::JsonError(_)),
        json_parsed(body@) matches Some(doc) ==> {
            &&& !has_error_key(doc) ==> (r matches Ok(resp) && resp matches
                APIResponse::Success(payload) && payload == doc)
            &&& has_error_key(doc) ==> match decoded_api_error(doc) {
                Some(fields) => (r matches Ok(resp) && resp matches APIResponse::Error(e)
                    && e.error == fields.0 && e.message@ == fields.1 && e.links@ == fields.2),
                None => (r matches Err(e) && e matches LastfmError::Decode(_)),
            }
        },
{
    match parse_json(body) {
        Ok(doc) => classify_value(doc),
        Err(e) => Err(LastfmError::JsonError(e)),
    }
}

} // verus!
