//! The decision hooks' documented defaults.
//!
//! The controller a deployment configures is a bundle of optional hooks over
//! the host framework's request and response types; the host keeps that
//! bundle and falls back, slot by slot, to the defaults below, which work on
//! plain values: the peer address as a string, and a response reduced to its
//! status code and headers.

use vstd::prelude::*;
use crate::decimal::dec_str;
use crate::decimal::u64_to_dec_string;
use crate::error::Error;

verus! {

/// The header that carries, on a rejected request, the window's expiry in
/// whole seconds since the Unix epoch.
pub const DEFAULT_RATE_LIMITED_UNTIL_HEADER: &'static str = "X-Rate-Limited-Until";

/// A response reduced to what the rate limiter decides: a status code and the
/// headers to insert. The host turns it into its framework's response type.
#[derive(Debug, Clone, PartialEq, Eq)]
pub struct ResponseParts {
    pub status: u16,
    pub headers: Vec<(String, String)>,
}

/// The default check of whether a request is rate limited at all: every
/// request is.
pub fn default_do_rate_limit() -> (r: bool)
    ensures
        r,
{
    true
}

/// The default identifier of a caller: the peer address, or a sentinel when
/// the host does not know it.
pub fn default_find_identifier(peer_addr: Option<String>) -> (r: String)
    ensures
        match peer_addr {
            Some(addr) => r@ == addr@,
            None => r@ == "<Unknown Source IP>"@,
        },
{
    match peer_addr {
        Some(addr) => addr,
        None => "<Unknown Source IP>".to_owned(),
    }
}

/// The default response to a rejected request: status 429, and, when the
/// window's expiry is known, one header naming it in whole seconds.
pub fn default_on_rate_limit_error(error: &Error) -> (r: ResponseParts)
    ensures
        r.status == 429u16,
        match *error {
            Error::RateLimited(until) => match until {
                Some(u) => r.headers@.len() == 1 && r.headers@[0].0@
                    == DEFAULT_RATE_LIMITED_UNTIL_HEADER@ && r.headers@[0].1@ == dec_str(
                    u as int / 1000,
                ),
                None => r.headers@.len() == 0,
            },
        },
{
    match error {
        Error::RateLimited(until) => match until {
            Some(u) => {
                let mut headers: Vec<(String, String)> = Vec::new();
                headers.push((DEFAULT_RATE_LIMITED_UNTIL_HEADER.to_owned(), u64_to_dec_string(*u / 1000)));
                ResponseParts { status: 429, headers }
            },
            None => ResponseParts { status: 429, headers: Vec::new() },
        },
    }
}

/// The default response to a failure inside the counting backend: status 500,
/// the error itself discarded.
pub fn default_on_store_error() -> (r: ResponseParts)
    ensures
        r.status == 500u16,
        r.headers@.len() == 0,
{
    ResponseParts { status: 500, headers: Vec::new() }
}

} // verus!
