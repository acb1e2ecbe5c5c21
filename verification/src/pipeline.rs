//! The outcome classification of one generated call.
//!
//! A generated method's body is a fixed pipeline: dispatch the request, check
//! the response status, deserialize the body, short-circuiting on the first
//! failure. The dispatch and the body read happen outside the library; what
//! is decided here, and proved, is which of those steps may run and what each
//! outcome maps to.

use crate::error::RetroqwestError;
use vstd::prelude::*;

verus! {

/// How dispatching the request went: the transport failed, or a response
/// with this status arrived.
#[derive(Clone, Debug, PartialEq)]
pub enum SendEvent {
    TransportFailed { message: String },
    Completed { status: u16 },
}

/// What must happen after dispatch: resolve the call with this error now,
/// or go on and read the response body.
#[derive(Clone, Debug, PartialEq)]
pub enum SendDecision {
    Fail { error: RetroqwestError },
    ReadBody { status: u16 },
}

/// A status that denotes a client or server error.
pub open spec fn is_error_status(status: u16) -> bool {
    400 <= status <= 599
}

/// The decision after dispatch: a transport failure resolves to the request
/// error, an error status resolves to the response error carrying that
/// status, and only the remaining statuses let the body be read.
pub open spec fn send_decision(e: SendEvent) -> SendDecision {
    match e {
        SendEvent::TransportFailed { message } => SendDecision::Fail {
            error: RetroqwestError::RequestError { message },
        },
        SendEvent::Completed { status } => {
            if is_error_status(status) {
                SendDecision::Fail { error: RetroqwestError::ResponseError { status } }
            } else {
                SendDecision::ReadBody { status }
            }
        },
    }
}

/// Decide what follows the dispatch of a request.
pub fn on_send_event(e: SendEvent) -> (r: SendDecision)
    ensures
        r == send_decision(e),
{
    match e {
        SendEvent::TransportFailed { message } => SendDecision::Fail {
            error: RetroqwestError::RequestError { message },
        },
        SendEvent::Completed { status } => {
            if 400 <= status && status <= 599 {
                SendDecision::Fail { error: RetroqwestError::ResponseError { status } }
            } else {
                SendDecision::ReadBody { status }
            }
        },
    }
}

/// Resolve the call once the body has been read and deserialized: a value
/// succeeds unchanged, a deserialization failure becomes the parse error.
pub fn on_body_event<T>(r: Result<T, String>) -> (out: Result<T, RetroqwestError>)
    ensures
        r is Ok ==> out is Ok && out->Ok_0 == r->Ok_0,
        r is Err ==> out is Err && out->Err_0 == (RetroqwestError::JsonParse {
            message: r->Err_0,
        }),
{
    match r {
        Ok(v) => Ok(v),
        Err(message) => Err(RetroqwestError::JsonParse { message }),
    }
}

/// The outcome of a whole call, given how the dispatch went and — when the
/// decision was to read on — how deserialization went.
pub open spec fn call_outcome<T>(e: SendEvent, body: Result<T, String>) -> Result<
    T,
    RetroqwestError,
> {
    match send_decision(e) {
        SendDecision::Fail { error } => Err(error),
        SendDecision::ReadBody { status } => match body {
            Ok(v) => Ok(v),
            Err(message) => Err(RetroqwestError::JsonParse { message }),
        },
    }
}

/// An error status resolves the call to the response error carrying that
/// status: never to success, and never to a parse failure, whatever the body
/// would have deserialized to.
pub proof fn lemma_error_status_resolves<T>(status: u16, body: Result<T, String>)
    requires
        400 <= status <= 599,
    ensures
        call_outcome(SendEvent::Completed { status }, body) == Err::<T, RetroqwestError>(
            RetroqwestError::ResponseError { status },
        ),
{
}

/// A success status whose body fails to deserialize resolves the call to the
/// parse error carrying the deserializer's message.
pub proof fn lemma_success_status_bad_body<T>(status: u16, message: String)
    requires
        200 <= status <= 299,
    ensures
        call_outcome::<T>(SendEvent::Completed { status }, Err(message)) == Err::<
            T,
            RetroqwestError,
        >(RetroqwestError::JsonParse { message }),
{
}

/// A transport failure resolves the call to the request error carrying the
/// transport's message, whatever the body would have been.
pub proof fn lemma_transport_failure_resolves<T>(message: String, body: Result<T, String>)
    ensures
        call_outcome(SendEvent::TransportFailed { message }, body) == Err::<T, RetroqwestError>(
            RetroqwestError::RequestError { message },
        ),
{
}

} // verus!
