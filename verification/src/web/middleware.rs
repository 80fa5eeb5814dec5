pub mod mw_auth;
