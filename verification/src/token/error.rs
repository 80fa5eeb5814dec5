use crate::token::jwt::JwtFault;
use vstd::prelude::*;

verus! {

/// Why a token could not be minted or was not accepted.
#[derive(Debug, Clone, Copy, PartialEq, Eq, Structural)]
pub enum Error {
    HmacFailNewFromSlice,
    InvalidToken,
    CannotDecodeIdent,
    CannotDecodeExp,
    TokenSignatureMismatch,
    ExpNotIso,
    ExpiredToken,
    TokenDecodeFailed,
    TokenCreationFailed,
    Unauthorized,
    InvalidSubject,
}

pub type Result<T> = core::result::Result<T, Error>;

impl Error {
    /// The error that stands for a fault of the signing scheme: a token
    /// that has not the shape of one, in its parts or in what they hold,
    /// failed to decode; a token of the right shape that the scheme turns
    /// down for another reason than its signature or its expiry is invalid.
    pub open spec fn of_fault(fault: JwtFault) -> Error {
        match fault {
            JwtFault::ExpiredSignature => Error::ExpiredToken,
            JwtFault::InvalidSignature => Error::TokenSignatureMismatch,
            JwtFault::InvalidToken
            | JwtFault::Base64
            | JwtFault::Json
            | JwtFault::Utf8 => Error::TokenDecodeFailed,
            JwtFault::Other => Error::InvalidToken,
        }
    }

    /// The variant's name.
    pub open spec fn name(self) -> Seq<char> {
        match self {
            Error::HmacFailNewFromSlice => "HmacFailNewFromSlice"@,
            Error::InvalidToken => "InvalidToken"@,
            Error::CannotDecodeIdent => "CannotDecodeIdent"@,
            Error::CannotDecodeExp => "CannotDecodeExp"@,
            Error::TokenSignatureMismatch => "TokenSignatureMismatch"@,
            Error::ExpNotIso => "ExpNotIso"@,
            Error::ExpiredToken => "ExpiredToken"@,
            Error::TokenDecodeFailed => "TokenDecodeFailed"@,
            Error::TokenCreationFailed => "TokenCreationFailed"@,
            Error::Unauthorized => "Unauthorized"@,
            Error::InvalidSubject => "InvalidSubject"@,
        }
    }

    /// The variant's name, as text.
    pub fn to_string(&self) -> (s: String)
        ensures
            s@ == self.name(),
    {
        let name = match self {
            Error::HmacFailNewFromSlice => "HmacFailNewFromSlice",
            Error::InvalidToken => "InvalidToken",
            Error::CannotDecodeIdent => "CannotDecodeIdent",
            Error::CannotDecodeExp => "CannotDecodeExp",
            Error::TokenSignatureMismatch => "TokenSignatureMismatch",
            Error::ExpNotIso => "ExpNotIso",
            Error::ExpiredToken => "ExpiredToken",
            Error::TokenDecodeFailed => "TokenDecodeFailed",
            Error::TokenCreationFailed => "TokenCreationFailed",
            Error::Unauthorized => "Unauthorized",
            Error::InvalidSubject => "InvalidSubject",
        };
        name.to_owned()
    }
}

impl From<JwtFault> for Error {
    fn from(fault: JwtFault) -> (e: Error) {
        match fault {
            JwtFault::ExpiredSignature => Error::ExpiredToken,
            JwtFault::InvalidSignature => Error::TokenSignatureMismatch,
            JwtFault::InvalidToken | JwtFault::Base64 | JwtFault::Json | JwtFault::Utf8 => {
                Error::TokenDecodeFailed
            },
            JwtFault::Other => Error::InvalidToken,
        }
    }
}

impl vstd::std_specs::convert::FromSpecImpl<JwtFault> for Error {
    open spec fn obeys_from_spec() -> bool {
        true
    }

    open spec fn from_spec(fault: JwtFault) -> Error {
        Error::of_fault(fault)
    }
}

} // verus!
