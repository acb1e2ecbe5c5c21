//! The closed error taxonomy surfaced to callers of generated methods.
//!
//! Every fallible step of a generated call propagates immediately through
//! exactly one of these variants, so callers can distinguish a construction
//! failure, a transport failure, an error status and a deserialization
//! failure by matching.

use vstd::prelude::*;

verus! {

/// What a generated call, or the client constructor, can fail with.
#[derive(Clone, Debug, PartialEq)]
pub enum RetroqwestError {
    /// Building the underlying HTTP client from its configuration failed.
    FailedToBuildClient { message: String },
    /// The request could not be dispatched: a transport-level failure.
    RequestError { message: String },
    /// A response arrived whose status denotes a client or server error.
    ResponseError { status: u16 },
    /// The response body did not deserialize into the declared payload type.
    JsonParse { message: String },
}

impl RetroqwestError {
    /// A fixed description of each failure, for diagnostics.
    pub fn describe(&self) -> (r: &'static str)
        ensures
            self is FailedToBuildClient ==> r@ == "Failed to build client"@,
            self is RequestError ==> r@ == "Error sending request"@,
            self is ResponseError ==> r@ == "Response status code indicates error"@,
            self is JsonParse ==> r@ == "Failed to parse json"@,
    {
        match self {
            RetroqwestError::FailedToBuildClient { .. } => "Failed to build client",
            RetroqwestError::RequestError { .. } => "Error sending request",
            RetroqwestError::ResponseError { .. } => "Response status code indicates error",
            RetroqwestError::JsonParse { .. } => "Failed to parse json",
        }
    }
}

} // verus!
