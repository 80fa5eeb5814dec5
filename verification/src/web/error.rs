use crate::model;
use crate::token;
use crate::web::middleware::mw_auth::{CtxExtError, Rejection};
use vstd::prelude::*;

verus! {

/// Why a request failed, in full; what the client is told of it is decided
/// by `client_status_and_error`.
#[derive(Debug)]
pub enum Error {
    // -- Login
    LoginFailUsernameNotFound,
    LoginFailUserHasNoPwd { user_id: i64 },
    LoginFailPwdNotMatching { user_id: i64 },
    // -- CtxExtError
    CtxExt(CtxExtError),
    // -- Extractors
    ReqStampNotInReqExt,
    // -- Config
    ConfigMissingEnv(&'static str),
    ConfigWrongFormat(&'static str),
    Token(token::Error),
    // -- Modules
    Model(model::Error),
}

pub type Result<T> = core::result::Result<T, Error>;

/// The mathematical value of an `Error`.
pub enum ErrorView {
    LoginFailUsernameNotFound,
    LoginFailUserHasNoPwd { user_id: i64 },
    LoginFailPwdNotMatching { user_id: i64 },
    CtxExt(Rejection),
    ReqStampNotInReqExt,
    ConfigMissingEnv(Seq<char>),
    ConfigWrongFormat(Seq<char>),
    Token(token::Error),
    Model(model::error::ErrorView),
}

impl View for Error {
    type V = ErrorView;

    open spec fn view(&self) -> ErrorView {
        match self {
            Error::LoginFailUsernameNotFound => ErrorView::LoginFailUsernameNotFound,
            Error::LoginFailUserHasNoPwd { user_id } => ErrorView::LoginFailUserHasNoPwd {
                user_id: *user_id,
            },
            Error::LoginFailPwdNotMatching { user_id } => ErrorView::LoginFailPwdNotMatching {
                user_id: *user_id,
            },
            Error::CtxExt(e) => ErrorView::CtxExt(e@),
            Error::ReqStampNotInReqExt => ErrorView::ReqStampNotInReqExt,
            Error::ConfigMissingEnv(name) => ErrorView::ConfigMissingEnv(name@),
            Error::ConfigWrongFormat(name) => ErrorView::ConfigWrongFormat(name@),
            Error::Token(e) => ErrorView::Token(*e),
            Error::Model(e) => ErrorView::Model(e@),
        }
    }
}

impl From<token::Error> for Error {
    fn from(val: token::Error) -> (e: Error) {
        Error::Token(val)
    }
}

impl vstd::std_specs::convert::FromSpecImpl<token::Error> for Error {
    open spec fn obeys_from_spec() -> bool {
        true
    }

    open spec fn from_spec(val: token::Error) -> Error {
        Error::Token(val)
    }
}

impl From<model::Error> for Error {
    fn from(val: model::Error) -> (e: Error) {
        Error::Model(val)
    }
}

impl vstd::std_specs::convert::FromSpecImpl<model::Error> for Error {
    open spec fn obeys_from_spec() -> bool {
        true
    }

    open spec fn from_spec(val: model::Error) -> Error {
        Error::Model(val)
    }
}

/// What a client is told of a failure.
#[derive(Debug)]
#[allow(non_camel_case_types)]
pub enum ClientError {
    LOGIN_FAIL,
    NO_AUTH,
    ENTITY_NOT_FOUND { entity: &'static str, id: i64 },
    RPC_REQUEST_INVALID(String),
    RPC_REQUEST_METHOD_UNKNOWN(String),
    RPC_PARAMS_INVALID(String),
    SERVICE_ERROR,
}

/// The mathematical value of a `ClientError`.
#[allow(non_camel_case_types)]
pub enum ClientErrorView {
    LOGIN_FAIL,
    NO_AUTH,
    ENTITY_NOT_FOUND { entity: Seq<char>, id: i64 },
    RPC_REQUEST_INVALID(Seq<char>),
    RPC_REQUEST_METHOD_UNKNOWN(Seq<char>),
    RPC_PARAMS_INVALID(Seq<char>),
    SERVICE_ERROR,
}

impl View for ClientError {
    type V = ClientErrorView;

    open spec fn view(&self) -> ClientErrorView {
        match self {
            ClientError::LOGIN_FAIL => ClientErrorView::LOGIN_FAIL,
            ClientError::NO_AUTH => ClientErrorView::NO_AUTH,
            ClientError::ENTITY_NOT_FOUND { entity, id } => ClientErrorView::ENTITY_NOT_FOUND {
                entity: entity@,
                id: *id,
            },
            ClientError::RPC_REQUEST_INVALID(detail) => ClientErrorView::RPC_REQUEST_INVALID(
                detail@,
            ),
            ClientError::RPC_REQUEST_METHOD_UNKNOWN(detail) => {
                ClientErrorView::RPC_REQUEST_METHOD_UNKNOWN(detail@)
            },
            ClientError::RPC_PARAMS_INVALID(detail) => ClientErrorView::RPC_PARAMS_INVALID(detail@),
            ClientError::SERVICE_ERROR => ClientErrorView::SERVICE_ERROR,
        }
    }
}

/// HTTP status: the request was malformed.
pub const STATUS_BAD_REQUEST: u16 = 400;

/// HTTP status: the request is refused.
pub const STATUS_FORBIDDEN: u16 = 403;

/// HTTP status: the service itself failed.
pub const STATUS_INTERNAL_SERVER_ERROR: u16 = 500;

/// The status and the message that a client gets for a failure.
///
/// Every failure to log in or to authenticate, whatever its inner reason,
/// is one and the same refusal, so that a client cannot tell which check
/// turned it down. A repository that could not be reached while resolving a
/// request is a failure of the service, not of the client. A payload that
/// did not validate is a bad request. All else is a failure of the service.
pub open spec fn client_status_and_error_of(e: ErrorView) -> (u16, ClientErrorView) {
    match e {
        ErrorView::LoginFailUsernameNotFound
        | ErrorView::LoginFailUserHasNoPwd { .. }
        | ErrorView::LoginFailPwdNotMatching { .. } => (
            STATUS_FORBIDDEN,
            ClientErrorView::LOGIN_FAIL,
        ),
        ErrorView::CtxExt(Rejection::ModelAccessError(_)) => (
            STATUS_INTERNAL_SERVER_ERROR,
            ClientErrorView::SERVICE_ERROR,
        ),
        ErrorView::CtxExt(_) => (STATUS_FORBIDDEN, ClientErrorView::LOGIN_FAIL),
        ErrorView::Token(_) => (STATUS_FORBIDDEN, ClientErrorView::LOGIN_FAIL),
        ErrorView::Model(model::error::ErrorView::ValidationFail(_)) => (
            STATUS_BAD_REQUEST,
            ClientErrorView::RPC_PARAMS_INVALID("Validation failed"@),
        ),
        _ => (STATUS_INTERNAL_SERVER_ERROR, ClientErrorView::SERVICE_ERROR),
    }
}

/// A failure to log in or to authenticate: of the login itself, of the
/// resolver for any reason but a repository that could not be reached, or
/// of the codec.
pub open spec fn is_auth_failure(e: ErrorView) -> bool {
    match e {
        ErrorView::LoginFailUsernameNotFound
        | ErrorView::LoginFailUserHasNoPwd { .. }
        | ErrorView::LoginFailPwdNotMatching { .. } => true,
        ErrorView::CtxExt(Rejection::ModelAccessError(_)) => false,
        ErrorView::CtxExt(_) => true,
        ErrorView::Token(_) => true,
        _ => false,
    }
}

/// A client cannot tell why it was not authenticated: whichever check
/// failed, it gets the same status and the same message.
pub proof fn lemma_uniform_refusal(a: ErrorView, b: ErrorView)
    requires
        is_auth_failure(a),
        is_auth_failure(b),
    ensures
        client_status_and_error_of(a) == client_status_and_error_of(b),
        client_status_and_error_of(a) == (STATUS_FORBIDDEN, ClientErrorView::LOGIN_FAIL),
{
}

impl Error {
    /// The status and the message that a client gets for this failure.
    pub fn client_status_and_error(&self) -> (r: (u16, ClientError))
        ensures
            (r.0, r.1@) == client_status_and_error_of(self@),
    {
        match self {
            Error::LoginFailUsernameNotFound
            | Error::LoginFailUserHasNoPwd { .. }
            | Error::LoginFailPwdNotMatching { .. } => (STATUS_FORBIDDEN, ClientError::LOGIN_FAIL),
            Error::CtxExt(CtxExtError::ModelAccessError(_)) => (
                STATUS_INTERNAL_SERVER_ERROR,
                ClientError::SERVICE_ERROR,
            ),
            Error::CtxExt(_) => (STATUS_FORBIDDEN, ClientError::LOGIN_FAIL),
            Error::Token(_) => (STATUS_FORBIDDEN, ClientError::LOGIN_FAIL),
            Error::Model(model::Error::ValidationFail(_)) => (
                STATUS_BAD_REQUEST,
                ClientError::RPC_PARAMS_INVALID("Validation failed".to_owned()),
            ),
            _ => (STATUS_INTERNAL_SERVER_ERROR, ClientError::SERVICE_ERROR),
        }
    }
}

} // verus!
