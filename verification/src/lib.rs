//! A typed client library for the omg.lol REST API.
//!
//! Every operation is one stateless request/response exchange against a
//! fixed origin.  The library itself performs no I/O: a handle prepares a
//! request — the full URL, the verb, the bearer credential where the call
//! needs one, and the body — and interprets the finished exchange, either
//! decoding a 200 reply strictly into a typed envelope or reporting the
//! status code or decode failure.  Which calls a handle may prepare is
//! fixed by its type: an unauthenticated handle only reaches the public
//! endpoints.

use vstd::prelude::*;

pub mod client;
pub mod email;
pub mod json;
pub mod structures;

verus! {

/// The fixed origin of the remote service; every request URL is this
/// origin followed by an endpoint-specific suffix.
pub const API_BASE: &'static str = "https://api.omg.lol/";

/// The full URL for a request is the fixed origin followed by the suffix.
pub open spec fn api_url(suffix: Seq<char>) -> Seq<char> {
    API_BASE@ + suffix
}

} // verus!

pub use client::OmglolClient;
