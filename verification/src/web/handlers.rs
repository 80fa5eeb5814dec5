pub mod email_shape;
pub mod handlers_email;
pub mod handlers_login;
pub mod handlers_register;
pub mod handlers_tokens;
pub mod validation;
