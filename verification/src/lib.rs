//! Session authentication and credential lifecycle for a small web service.
//!
//! The core is four parts, leaves first:
//!
//! - [`pwd`], the password hasher: salted digests under a versioned scheme,
//!   verified under the scheme that made them, with a report of whether
//!   that scheme is still the preferred one;
//! - [`token`], the token codec: signed session tokens with a subject, an
//!   issue and an expiry instant, the subject's rotation salt and a class;
//! - [`web::middleware::mw_auth`], the context resolver and the request
//!   entry filter: from a raw token to an identity or a classified
//!   rejection, in steps that each guard the next;
//! - [`web::handlers`], what login, refresh, logout and registration
//!   decide between a request and its response.
//!
//! Around it stand the plain-value rules of the model ([`model`]), of
//! outbound mail ([`tmail`]), of object storage ([`storage`], [`mime`]) and
//! of configuration ([`envs`]).
//!
//! The library reads no clock, store, socket or environment of its own
//! accord. Where an outcome depends on an instant, the function that takes
//! the instant as an argument carries the exact contract, and its sibling
//! that reads the system clock promises the same of some instant. What is
//! looked up in a repository is handed in by the caller.
//!
//! Signing, digests, and a few parsers are other crates'. Each such call
//! stands behind a small function whose contract is believed, not proved;
//! its doc comment names the function called and what is claimed of it.
pub mod ctx;
pub mod dev_utils;
pub mod envs;
pub mod mime;
pub mod model;
pub mod pwd;
pub mod storage;
pub mod text;
pub mod tmail;
pub mod token;
pub mod web;
