//! The error taxonomy: local validation and configuration failures, decode
//! failures, transport failures, and structured errors returned by the
//! service itself.

use vstd::prelude::*;

verus! {

/// A structured failure payload returned by the remote service inside a
/// normal reply.
#[derive(Debug)]
pub struct ApiError {
    pub error: i64,
    pub message: String,
    pub links: Vec<serde_json::Value>,
}

/// Everything a call can fail with before, during, or after the wire.
#[derive(Debug)]
pub enum LastfmError {
    /// A local validation or configuration failure; never reaches the
    /// network.
    Generic(String),
    /// A transport failure, surfaced as-is by the calling layer.
    NetworkError(reqwest::Error),
    /// A reply that is not well-formed JSON.
    JsonError(serde_json::Error),
    /// A well-formed reply whose shape does not match what was expected.
    Decode(String),
    /// A structured error returned by the service.
    ApiError(ApiError),
}

#[verifier::external_type_specification]
#[verifier::external_body]
pub struct ExReqwestError(reqwest::Error);

} // verus!
