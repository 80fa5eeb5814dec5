use crate::pwd;
use vstd::prelude::*;

verus! {

/// Why a model operation failed.
#[derive(Debug)]
pub enum Error {
    EntityNotFound { entity: &'static str, id: i64 },
    UserAlreadyExists { username: String },
    UniqueViolation { table: String, constraint: String },
    CantCreateModelManagerProvider(String),
    ValidationFail(String),
    EmailVerificationTokenInvalid,
    Pwd(pwd::Error),
    /// The store failed; the text is its report.
    Store(String),
}

pub type Result<T> = core::result::Result<T, Error>;

/// The mathematical value of an `Error`.
pub enum ErrorView {
    EntityNotFound { entity: Seq<char>, id: i64 },
    UserAlreadyExists { username: Seq<char> },
    UniqueViolation { table: Seq<char>, constraint: Seq<char> },
    CantCreateModelManagerProvider(Seq<char>),
    ValidationFail(Seq<char>),
    EmailVerificationTokenInvalid,
    Pwd(pwd::Error),
    Store(Seq<char>),
}

impl View for Error {
    type V = ErrorView;

    open spec fn view(&self) -> ErrorView {
        match self {
            Error::EntityNotFound { entity, id } => ErrorView::EntityNotFound {
                entity: entity@,
                id: *id,
            },
            Error::UserAlreadyExists { username } => ErrorView::UserAlreadyExists {
                username: username@,
            },
            Error::UniqueViolation { table, constraint } => ErrorView::UniqueViolation {
                table: table@,
                constraint: constraint@,
            },
            Error::CantCreateModelManagerProvider(detail) => {
                ErrorView::CantCreateModelManagerProvider(detail@)
            },
            Error::ValidationFail(detail) => ErrorView::ValidationFail(detail@),
            Error::EmailVerificationTokenInvalid => ErrorView::EmailVerificationTokenInvalid,
            Error::Pwd(e) => ErrorView::Pwd(*e),
            Error::Store(detail) => ErrorView::Store(detail@),
        }
    }
}

impl From<pwd::Error> for Error {
    fn from(e: pwd::Error) -> (r: Error) {
        Error::Pwd(e)
    }
}

impl vstd::std_specs::convert::FromSpecImpl<pwd::Error> for Error {
    open spec fn obeys_from_spec() -> bool {
        true
    }

    open spec fn from_spec(e: pwd::Error) -> Error {
        Error::Pwd(e)
    }
}

} // verus!
