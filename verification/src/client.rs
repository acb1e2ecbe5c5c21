//! The generated client: an owned endpoint string and an HTTP client handle.
//!
//! The constructor trims every trailing `/` from the supplied base URL
//! before storing it, so base URLs differing only in trailing slashes yield
//! the same stored endpoint; it fails only when the underlying HTTP client
//! cannot be built from its configuration. The handle itself is opaque here:
//! dispatching requests through it happens outside the library.

use crate::error::RetroqwestError;
use crate::template::{trim_trailing_slashes, trimmed};
use vstd::prelude::*;

verus! {

#[verifier::external_type_specification]
#[verifier::external_body]
pub struct ExReqwestClient(reqwest::Client);

#[verifier::external_type_specification]
#[verifier::external_body]
pub struct ExReqwestClientBuilder(reqwest::ClientBuilder);

#[verifier::external_type_specification]
#[verifier::external_body]
pub struct ExReqwestError(reqwest::Error);

/// Relies on reqwest::Client being cloneable: the clone shares the same
/// pooled connections; nothing further is assumed of the handle.
pub assume_specification[ <reqwest::Client as Clone>::clone ](c: &reqwest::Client) -> (r:
    reqwest::Client);

/// Relies on reqwest::ClientBuilder::build: it constructs the configured
/// HTTP client, and fails when the configuration cannot be realised; which
/// of the two happens depends on the configuration alone, so nothing is
/// promised of the outcome.
#[verifier::external_body]
fn build_http_client(builder: reqwest::ClientBuilder) -> (r: Result<
    reqwest::Client,
    reqwest::Error,
>) {
    builder.build()
}

/// Relies on the Display rendering of reqwest::Error for a diagnostic text;
/// nothing is assumed of its content.
#[verifier::external_body]
fn error_text(e: &reqwest::Error) -> (r: String) {
    format!("{}", e)
}

/// The generated client value: the stored endpoint and the handle the
/// generated methods dispatch through. Neither field changes after
/// construction.
#[derive(Clone, Debug)]
pub struct RetroClient {
    endpoint: String,
    http: reqwest::Client,
}

impl RetroClient {
    /// The stored endpoint, as the contracts speak of it.
    pub closed spec fn endpoint_view(&self) -> Seq<char> {
        self.endpoint@
    }

    /// Build a client from a base URL and a client configuration. The stored
    /// endpoint is the base URL with every trailing `/` removed; the only
    /// failure is the underlying client construction failing.
    pub fn from_builder(base_url: &str, client_builder: reqwest::ClientBuilder) -> (r: Result<
        RetroClient,
        RetroqwestError,
    >)
        ensures
            r is Ok ==> r->Ok_0.endpoint_view() == trimmed(base_url@),
            r is Err ==> r->Err_0 is FailedToBuildClient,
    {
        let endpoint = trim_trailing_slashes(base_url);
        match build_http_client(client_builder) {
            Ok(http) => Ok(RetroClient { endpoint, http }),
            Err(e) => Err(RetroqwestError::FailedToBuildClient { message: error_text(&e) }),
        }
    }

    /// The stored endpoint, as callers observe it.
    pub fn endpoint(&self) -> (r: &str)
        ensures
            r@ == self.endpoint_view(),
    {
        self.endpoint.as_str()
    }

    /// The underlying HTTP client handle, for whoever dispatches requests.
    pub fn http_client(&self) -> &reqwest::Client {
        &self.http
    }
}

} // verus!
