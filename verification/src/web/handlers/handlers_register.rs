//! Registration: the rules of a payload, and what a new user is told.
use super::email_shape::{email_shape, is_email_shape};
use super::validation::{
    has_min_length, in_one_line, length_in_graphemes, messages_view, one_line,
};
use crate::model;
use crate::model::user::UserForCreate;
use crate::text::{joined, same_text};
use crate::web::error::{Error, ErrorView, Result};
use vstd::prelude::*;

verus! {

/// What a client sends to register.
#[derive(Debug)]
pub struct RegistrationPayload {
    pub username: String,
    pub email: String,
    pub pwd: String,
    pub pwd_confirm: String,
}

/// What a client gets on registering.
#[derive(Debug)]
pub struct RegistrationResponse {
    pub success: bool,
    pub message: String,
}

/// The least length of a password.
pub const MIN_PWD_LENGTH: usize = 6;

/// `message` where `broken`, else nothing.
pub open spec fn failure_if(broken: bool, message: Seq<char>) -> Seq<Seq<char>> {
    if broken {
        seq![message]
    } else {
        Seq::empty()
    }
}

/// The message for a password that was not repeated as it was typed.
pub open spec fn passwords_differ_message() -> Seq<char> {
    "Passwords do not match"@
}

/// The message of a registration response.
pub open spec fn registered_message(username: Seq<char>) -> Seq<char> {
    "User '"@ + username
        + "' created successfully! Please check your email to verify your account."@
}

impl RegistrationPayload {
    /// The messages of the rules that the payload breaks, field by field:
    /// a user name is required; an address is required, and it must have
    /// the shape of one; a password is at least `MIN_PWD_LENGTH` long; its
    /// confirmation is required.
    pub open spec fn rule_failures(&self) -> Seq<Seq<char>> {
        failure_if(length_in_graphemes(self.username@) < 1, "Username is required"@) + failure_if(
            length_in_graphemes(self.email@) < 1,
            "Email is required"@,
        ) + failure_if(!email_shape(self.email@), "Email is invalid"@) + failure_if(
            length_in_graphemes(self.pwd@) < MIN_PWD_LENGTH,
            "Password must be at least 6 characters"@,
        ) + failure_if(
            length_in_graphemes(self.pwd_confirm@) < 1,
            "Confirm Password is required"@,
        )
    }

    /// What registering with the payload comes to: a validation failure
    /// that names every broken rule; else a validation failure where the
    /// password and its confirmation differ; else the user to create.
    pub open spec fn checked(&self) -> core::result::Result<(), ErrorView> {
        if self.rule_failures().len() > 0 {
            Err(
                ErrorView::Model(
                    model::error::ErrorView::ValidationFail(in_one_line(self.rule_failures())),
                ),
            )
        } else if self.pwd@ != self.pwd_confirm@ {
            Err(
                ErrorView::Model(
                    model::error::ErrorView::ValidationFail(passwords_differ_message()),
                ),
            )
        } else {
            Ok(())
        }
    }

    /// The messages of the rules that the payload breaks.
    pub fn validate(&self) -> (failures: Vec<&'static str>)
        ensures
            messages_view(failures@) == self.rule_failures(),
    {
        let mut failures: Vec<&'static str> = Vec::new();
        let ghost mut sofar: Seq<Seq<char>> = Seq::empty();
        assert(messages_view(failures@) =~= sofar);
        if !has_min_length(self.username.as_str(), 1) {
            failures.push("Username is required");
        }
        proof {
            sofar = sofar + failure_if(
                length_in_graphemes(self.username@) < 1,
                "Username is required"@,
            );
            assert(messages_view(failures@) =~= sofar);
        }
        if !has_min_length(self.email.as_str(), 1) {
            failures.push("Email is required");
        }
        proof {
            sofar = sofar + failure_if(length_in_graphemes(self.email@) < 1, "Email is required"@);
            assert(messages_view(failures@) =~= sofar);
        }
        if !is_email_shape(self.email.as_str()) {
            failures.push("Email is invalid");
        }
        proof {
            sofar = sofar + failure_if(!email_shape(self.email@), "Email is invalid"@);
            assert(messages_view(failures@) =~= sofar);
        }
        if !has_min_length(self.pwd.as_str(), MIN_PWD_LENGTH) {
            failures.push("Password must be at least 6 characters");
        }
        proof {
            sofar = sofar + failure_if(
                length_in_graphemes(self.pwd@) < MIN_PWD_LENGTH,
                "Password must be at least 6 characters"@,
            );
            assert(messages_view(failures@) =~= sofar);
        }
        if !has_min_length(self.pwd_confirm.as_str(), 1) {
            failures.push("Confirm Password is required");
        }
        proof {
            sofar = sofar + failure_if(
                length_in_graphemes(self.pwd_confirm@) < 1,
                "Confirm Password is required"@,
            );
            assert(messages_view(failures@) =~= sofar);
        }
        failures
    }
}

/// The user to create for a payload, where the payload keeps its fields'
/// rules and the password is repeated as it was typed.
pub fn api_registration_user(payload: &RegistrationPayload) -> (r: Result<UserForCreate>)
    ensures
        match r {
            Ok(user_c) => payload.checked() is Ok && user_c.username@ == payload.username@
                && user_c.email@ == payload.email@ && user_c.pwd_clear@ == payload.pwd@,
            Err(e) => payload.checked() == Err::<(), ErrorView>(e@),
        },
{
    let failures = payload.validate();
    if failures.len() > 0 {
        return Err(Error::Model(model::Error::ValidationFail(one_line(&failures))));
    }
    if !same_text(payload.pwd.as_str(), payload.pwd_confirm.as_str()) {
        return Err(Error::Model(model::Error::ValidationFail("Passwords do not match".to_owned())));
    }
    Ok(
        UserForCreate {
            username: payload.username.clone(),
            email: payload.email.clone(),
            pwd_clear: payload.pwd.clone(),
        },
    )
}

/// What a new user is told.
pub fn api_registration_response(username: &str) -> (r: RegistrationResponse)
    ensures
        r.success,
        r.message@ == registered_message(username@),
{
    let mut message = joined("User '", username);
    message.append("' created successfully! Please check your email to verify your account.");
    RegistrationResponse { success: true, message }
}

} // verus!
