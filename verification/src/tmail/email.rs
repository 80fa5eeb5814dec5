pub mod emails_sender;
pub mod error;
pub mod templates_sender;
