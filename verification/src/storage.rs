//! Object storage: where an object is found, and what the store's answers
//! mean. The transfers themselves are the caller's.
pub mod config;
pub mod oss;
