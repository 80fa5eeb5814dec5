//! Users as the store holds them, and what is decided when one is created
//! or confirms an address.
use crate::model::{Error, Result};
use crate::pwd::{self, hashed, ContentToHash, Scheme};
use crate::text::{contains, contains_text, is_blank, is_blank_text, same_text};
use crate::token::jwt::unix_now;
use vstd::prelude::*;

verus! {

/// What a new user supplies.
#[derive(Debug)]
pub struct UserForCreate {
    pub username: String,
    pub email: String,
    pub pwd_clear: String,
}

/// The row written for a new user.
#[derive(Debug)]
pub struct UserForInsert {
    pub username: String,
    pub email: String,
    /// The stored digest of the password.
    pub pwd: String,
    pub pwd_salt: String,
    pub email_verified: bool,
    pub email_verification_token: Option<String>,
    /// Seconds since the Unix epoch.
    pub email_verification_expires_at: Option<i64>,
}

/// A user, as a response names it.
#[derive(Debug)]
pub struct UserDTO {
    pub id: i64,
    pub username: String,
}

/// What login reads of a user.
#[derive(Debug)]
pub struct UserForLogin {
    pub id: i64,
    pub username: String,
    pub email: String,
    /// The stored digest of the password, `#<scheme>#<hex>`.
    pub pwd: Option<String>,
    pub pwd_salt: String,
    /// The rotation salt that the user's tokens must carry.
    pub token_salt: String,
}

/// What token validation reads of a user.
#[derive(Debug)]
pub struct UserForAuth {
    pub id: i64,
    pub username: String,
    pub email: String,
    /// The rotation salt that the user's tokens must carry.
    pub token_salt: String,
}

/// The mathematical value of a `UserForAuth`.
pub struct UserForAuthView {
    pub id: i64,
    pub username: Seq<char>,
    pub email: Seq<char>,
    pub token_salt: Seq<char>,
}

impl View for UserForAuth {
    type V = UserForAuthView;

    open spec fn view(&self) -> UserForAuthView {
        UserForAuthView {
            id: self.id,
            username: self.username@,
            email: self.email@,
            token_salt: self.token_salt@,
        }
    }
}

/// How long an address may take to be confirmed, in seconds.
pub const EMAIL_VERIFICATION_TTL: i64 = 1800;

/// The length of an identifier in its hyphenated text form.
pub const UUID_TEXT_LENGTH: usize = 36;

/// A random identifier in its hyphenated text form, from
/// `uuid::Uuid::new_v4` and its `Display`, which writes the thirty-six
/// characters of the hyphenated form. Of the value itself nothing is known.
#[verifier::external_body]
pub(crate) fn fresh_uuid() -> (id: String)
    ensures
        id@.len() == UUID_TEXT_LENGTH,
{
    uuid::Uuid::new_v4().to_string()
}

/// The store's operations on users, as far as they decide anything.
pub struct UserBmc;

impl UserBmc {
    /// The row for a new user: the password hashed under the current
    /// scheme with `pwd_salt`, the address unconfirmed, and
    /// `verification_token` good until `EMAIL_VERIFICATION_TTL` after `now`.
    pub open spec fn spec_insert_row(
        user_c: &UserForCreate,
        pwd_salt: Seq<char>,
        verification_token: Seq<char>,
        now: i64,
        row: &UserForInsert,
    ) -> bool {
        &&& row.username@ == user_c.username@
        &&& row.email@ == user_c.email@
        &&& hashed(Scheme::spec_current(), user_c.pwd_clear@, pwd_salt) == Ok::<
            Seq<char>,
            pwd::Error,
        >(row.pwd@)
        &&& row.pwd_salt@ == pwd_salt
        &&& !row.email_verified
        &&& row.email_verification_token matches Some(t) && t@ == verification_token
        &&& row.email_verification_expires_at == Some(UserBmc::spec_expiry(now))
    }

    /// The instant `EMAIL_VERIFICATION_TTL` after `now`, or the end of time
    /// where that cannot be stated.
    pub open spec fn spec_expiry(now: i64) -> i64 {
        if now > i64::MAX - EMAIL_VERIFICATION_TTL {
            i64::MAX
        } else {
            (now + EMAIL_VERIFICATION_TTL) as i64
        }
    }

    /// The name of the users' table.
    pub fn table() -> (name: &'static str)
        ensures
            name@ == "user"@,
    {
        "user"
    }

    /// Makes the row for a new user. Fails, with the hasher's error, exactly
    /// where hashing the password fails.
    pub fn insert_row(
        user_c: &UserForCreate,
        pwd_salt: String,
        verification_token: String,
        now: i64,
    ) -> (r: Result<UserForInsert>)
        ensures
            match r {
                Ok(row) => UserBmc::spec_insert_row(
                    user_c,
                    pwd_salt@,
                    verification_token@,
                    now,
                    &row,
                ),
                Err(e) => e@ == crate::model::error::ErrorView::Pwd(pwd::Error::HashingFailed)
                    && hashed(Scheme::spec_current(), user_c.pwd_clear@, pwd_salt@) is Err,
            },
    {
        let to_hash = ContentToHash { content: user_c.pwd_clear.clone(), salt: pwd_salt };
        let pwd = match pwd::hash_pwd(&to_hash) {
            Ok(stored) => stored,
            Err(e) => { return Err(Error::from(e)); },
        };
        let expires_at = if now > i64::MAX - EMAIL_VERIFICATION_TTL {
            i64::MAX
        } else {
            now + EMAIL_VERIFICATION_TTL
        };
        Ok(
            UserForInsert {
                username: user_c.username.clone(),
                email: user_c.email.clone(),
                pwd,
                pwd_salt: to_hash.salt,
                email_verified: false,
                email_verification_token: Some(verification_token),
                email_verification_expires_at: Some(expires_at),
            },
        )
    }

    /// Makes the row for a new user with a fresh password salt and a fresh
    /// verification token, at the system clock's instant. Fails, with the
    /// hasher's error, only where hashing the password with the fresh salt
    /// fails.
    pub fn create(user_c: &UserForCreate) -> (r: Result<UserForInsert>)
        ensures
            match r {
                Ok(row) => exists|salt: Seq<char>, token: Seq<char>, now: i64|
                    {
                        &&& salt.len() == UUID_TEXT_LENGTH
                        &&& token.len() == UUID_TEXT_LENGTH
                        &&& now >= 0
                        &&& #[trigger] UserBmc::spec_insert_row(user_c, salt, token, now, &row)
                    },
                Err(e) => e@ == crate::model::error::ErrorView::Pwd(pwd::Error::HashingFailed)
                    && exists|salt: Seq<char>|
                    salt.len() == UUID_TEXT_LENGTH && #[trigger] hashed(
                        Scheme::spec_current(),
                        user_c.pwd_clear@,
                        salt,
                    ) is Err,
            },
    {
        let pwd_salt = fresh_uuid();
        let verification_token = fresh_uuid();
        let now = unix_now();
        let ghost salt = pwd_salt@;
        let ghost token = verification_token@;
        let r = UserBmc::insert_row(user_c, pwd_salt, verification_token, now);
        proof {
            match &r {
                Ok(row) => {
                    assert(UserBmc::spec_insert_row(user_c, salt, token, now, row));
                },
                Err(_) => {
                    assert(hashed(Scheme::spec_current(), user_c.pwd_clear@, salt) is Err);
                },
            }
        }
        r
    }

    /// What a violated uniqueness constraint means for a new user: the name
    /// is taken where the users' table reports a constraint on the username;
    /// any other violation is left to the caller.
    pub fn unique_violation(table: &str, constraint: &str, username: &str) -> (r: Option<Error>)
        ensures
            match r {
                Some(e) => table@ == "user"@ && contains_text(constraint@, "username"@) && e@
                    == (crate::model::error::ErrorView::UserAlreadyExists { username: username@ }),
                None => !(table@ == "user"@ && contains_text(constraint@, "username"@)),
            },
    {
        if same_text(table, "user") && contains(constraint, "username") {
            Some(Error::UserAlreadyExists { username: username.to_owned() })
        } else {
            None
        }
    }

    /// Whether a verification token is worth looking up: a token of nothing
    /// but white space is invalid as it stands.
    pub fn verify_email_token(token: &str) -> (r: Result<()>)
        ensures
            match r {
                Ok(_) => !is_blank_text(token@),
                Err(e) => is_blank_text(token@) && e@
                    == crate::model::error::ErrorView::EmailVerificationTokenInvalid,
            },
    {
        if is_blank(token) {
            Err(Error::EmailVerificationTokenInvalid)
        } else {
            Ok(())
        }
    }

    /// The user whose address a token confirms, given the store's answer
    /// for the token: the token is invalid where no unexpired row holds it.
    pub fn verify_email(found: Option<i64>) -> (r: Result<i64>)
        ensures
            match r {
                Ok(id) => found == Some(id),
                Err(e) => found is None && e@
                    == crate::model::error::ErrorView::EmailVerificationTokenInvalid,
            },
    {
        match found {
            Some(id) => Ok(id),
            None => Err(Error::EmailVerificationTokenInvalid),
        }
    }

    /// The digest to store when a user's password changes: `pwd_clear`
    /// hashed under the current scheme with the user's own password salt.
    pub fn update_pwd(user: &UserForLogin, pwd_clear: &str) -> (r: Result<String>)
        ensures
            match r {
                Ok(stored) => hashed(Scheme::spec_current(), pwd_clear@, user.pwd_salt@) == Ok::<
                    Seq<char>,
                    pwd::Error,
                >(stored@),
                Err(e) => e@ == crate::model::error::ErrorView::Pwd(pwd::Error::HashingFailed)
                    && hashed(Scheme::spec_current(), pwd_clear@, user.pwd_salt@) is Err,
            },
    {
        let to_hash = ContentToHash {
            content: pwd_clear.to_owned(),
            salt: user.pwd_salt.clone(),
        };
        match pwd::hash_pwd(&to_hash) {
            Ok(stored) => Ok(stored),
            Err(e) => Err(Error::from(e)),
        }
    }
}

} // verus!
