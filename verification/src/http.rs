//! The HTTP capability abstraction: the minimal contract a backend must
//! satisfy for the transport to drive its two requests.
//!
//! A backend hands the transport plain values — header lines as strings and
//! response bodies as byte vectors — and decides on its own how the request
//! is actually transmitted (connections, TLS, redirects, status handling).
//! Nothing is promised about what a backend returns: the transport validates
//! every response it receives.

use vstd::prelude::*;

use crate::error::Error;

verus! {

/// What a discovery (GET) request yields: the response's header lines and
/// its body.
pub struct GetResponse {
    pub headers: Vec<String>,
    pub body: Vec<u8>,
}

/// What a service (POST) request yields: the response's header lines and
/// its body.
pub struct PostResponse {
    pub headers: Vec<String>,
    pub body: Vec<u8>,
}

/// A pluggable HTTP backend. Implementations perform a real network round
/// trip (or a backend-defined equivalent); failures of any kind — network,
/// DNS, a status the backend treats as fatal — surface as the transport's
/// I/O error class, [`Error::Io`], and are propagated to the transport's
/// caller unchanged, never retried at this layer. The two protocol-level
/// error classes are raised only by the transport's own validation, so an
/// implementation must not use them.
pub trait Http {
    /// Issues a GET against `url` with the given pre-formatted header
    /// lines, yielding the response's header lines and body.
    fn get(&mut self, url: &str, headers: &Vec<String>) -> (r: Result<GetResponse, Error>)
        ensures
            r matches Err(e) ==> e is Io,
    ;

    /// Issues a POST against `url` with the given pre-formatted header
    /// lines, sending `body` as the request payload and yielding the
    /// response's header lines and body.
    fn post(&mut self, url: &str, headers: &Vec<String>, body: &Vec<u8>) -> (r: Result<
        PostResponse,
        Error,
    >)
        ensures
            r matches Err(e) ==> e is Io,
    ;
}

} // verus!
