//! What the web layer decides: how a token is taken from a request, how a
//! request is resolved to an identity, what the login and refresh handlers
//! answer, and what a client is told of a failure. Requests, responses and
//! cookies themselves are the caller's.
pub mod error;
pub mod handlers;
pub mod middleware;
pub mod utils;

pub use self::error::Error;
