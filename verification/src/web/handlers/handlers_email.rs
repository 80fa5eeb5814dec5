//! Confirmation of an address.
use super::validation::{has_min_length, length_in_graphemes};
use crate::model;
use crate::web::error::{Error, ErrorView, Result};
use vstd::prelude::*;

verus! {

/// What a client sends to confirm its address.
#[derive(Debug)]
pub struct VerifyEmailPayload {
    pub token: String,
}

/// What a client gets once its address is confirmed.
#[derive(Debug)]
pub struct VerifyEmailResponse {
    pub success: bool,
    pub message: String,
}

/// The message for a payload without a token.
pub open spec fn token_required_message() -> Seq<char> {
    "Verification token is required"@
}

/// The message of a confirmation.
pub open spec fn verified_message() -> Seq<char> {
    "Email verified successfully"@
}

impl VerifyEmailPayload {
    /// The payload's own rule: a token is required.
    pub fn validate(&self) -> (r: Result<()>)
        ensures
            match r {
                Ok(_) => length_in_graphemes(self.token@) >= 1,
                Err(e) => length_in_graphemes(self.token@) < 1 && e@ == ErrorView::Model(
                    model::error::ErrorView::ValidationFail(token_required_message()),
                ),
            },
    {
        if has_min_length(self.token.as_str(), 1) {
            Ok(())
        } else {
            Err(
                Error::Model(
                    model::Error::ValidationFail("Verification token is required".to_owned()),
                ),
            )
        }
    }
}

/// What a client is told once its address is confirmed.
pub fn api_verify_email_response() -> (r: VerifyEmailResponse)
    ensures
        r.success,
        r.message@ == verified_message(),
{
    VerifyEmailResponse { success: true, message: "Email verified successfully".to_owned() }
}

} // verus!
