//! The client: a reusable HTTP transport handle.

use vstd::prelude::*;
use crate::error::LyricError;

verus! {

/// Relies on reqwest::Client::new: a transport handle with default
/// configuration and its own connection pool. reqwest documents it as
/// panicking when the default transport cannot be initialised, an
/// environmental failure no input controls.
#[verifier::external_body]
fn fresh_http() -> reqwest::Client {
    reqwest::Client::new()
}

/// Relies on reqwest::Client::clone: the handle is a reference-counted
/// pointer to the transport, so the clone is the same handle value, shares
/// the connection pool of `http`, and creates no independent transport.
#[verifier::external_body]
fn shared_http(http: &reqwest::Client) -> (r: reqwest::Client)
    ensures
        r == *http,
{
    http.clone()
}

/// Relies on the Display impl of reqwest::Error for the message text.
#[verifier::external_body]
fn transport_error_text(e: &reqwest::Error) -> String {
    format!("{}", e)
}

/// A lyrics client: one exclusively-held or shared HTTP transport handle,
/// constructed once and reused across lookups. No other state.
pub struct LyricClient {
    http: reqwest::Client,
}

impl LyricClient {
    /// The transport handle held by the client.
    pub closed spec fn transport(self) -> reqwest::Client {
        self.http
    }

    /// A client over a fresh, default-configured transport.
    pub fn new() -> Self {
        LyricClient { http: fresh_http() }
    }

    /// Construct a client reusing an existing http client: the built client's
    /// transport is the supplied handle, so the caller keeps it, both share
    /// one connection pool, and no independent transport is created.
    pub fn from_http_client(http: &reqwest::Client) -> (r: Self)
        ensures
            r.transport() == *http,
    {
        LyricClient { http: shared_http(http) }
    }

    /// The transport handle this client was built over: every request the
    /// client issues goes through it.
    pub fn http(&self) -> (r: &reqwest::Client)
        ensures
            r == self.transport(),
    {
        &self.http
    }
}

impl Default for LyricClient {
    /// The same client as `new`: a fresh, default-configured transport.
    fn default() -> Self {
        LyricClient::new()
    }
}

/// Classifies a failed network exchange: every transport-layer error is
/// surfaced as a transport failure, never a decode failure and never an
/// absent outcome.
pub fn transport_failure(e: &reqwest::Error) -> (r: LyricError)
    ensures
        r is Transport,
{
    LyricError::Transport { detail: transport_error_text(e) }
}

} // verus!
