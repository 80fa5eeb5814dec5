//! The model layer's plain values and rules. Reading and writing the store
//! is the caller's business; what is decided before and after is here.
pub mod error;
pub mod modql_utils;
pub mod post;
pub mod user;

pub use self::error::{Error, Result};
