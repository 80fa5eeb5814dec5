//! Outbound mail: which message goes to whom, with what text. Handing the
//! message to a mail server is the caller's.
pub mod config;
pub mod email;
