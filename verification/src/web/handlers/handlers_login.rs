//! Login and logout: what is decided between the look-up of the user and
//! the response.
use crate::model;
use crate::model::user::{UserDTO, UserForLogin};
use crate::pwd::{validate_pwd, verified, ContentToHash, SchemeStatus, Verdict};
use crate::text::joined;
use crate::token::jwt::unix_now;
use crate::token::{generate_web_tokens_at, pair_opens, web_tokens_at, AuthConfig};
use crate::web::error::{Error, ErrorView, Result};
use crate::web::utils::token::{
    remove_token_cookie, removal_cookie, session_cookie, session_cookie_for, TokenCookie,
};
use vstd::prelude::*;

verus! {

/// What a client sends to log in.
#[derive(Debug)]
pub struct LoginPayload {
    pub username: String,
    pub pwd: String,
}

/// What a client gets on logging in.
#[derive(Debug)]
pub struct LoginResponse {
    pub success: bool,
    pub message: String,
    pub user: UserDTO,
    /// The access token; the session cookie carries the same.
    pub token: Option<String>,
    /// The refresh token that was minted with it.
    pub refresh_token: Option<String>,
}

/// What a login does once its credentials were found good.
#[derive(Debug, Clone, Copy, PartialEq, Eq, Structural)]
pub enum LoginStep {
    /// The password matched under an outdated scheme: it is stored anew,
    /// hashed under the current one, before the login is answered.
    StorePwd,
    /// The login is answered.
    Respond,
}

/// What a client sends to log out.
#[derive(Debug)]
pub struct LogoutPayload {
    pub logout: bool,
}

/// What a client gets on logging out.
#[derive(Debug)]
pub struct LogoutResponse {
    pub success: bool,
    pub message: String,
}

/// What checking the credentials of a login returns, given the
/// repository's answer for the user name: the status of the scheme that
/// the password matched under, or the failure. A password that does not
/// match is a failed login; a hasher that itself fails is no rejection of
/// the credentials but a failure of the service, reported as the hasher's
/// error.
pub open spec fn login_verified(user: Option<UserForLogin>, pwd_clear: Seq<char>) -> core::result::Result<
    SchemeStatus,
    ErrorView,
> {
    match user {
        None => Err(ErrorView::LoginFailUsernameNotFound),
        Some(u) => match u.pwd {
            None => Err(ErrorView::LoginFailUserHasNoPwd { user_id: u.id }),
            Some(stored) => match verified(pwd_clear, u.pwd_salt@, stored@) {
                Ok(Verdict::Match(status)) => Ok(status),
                Ok(Verdict::Mismatch) => Err(ErrorView::LoginFailPwdNotMatching { user_id: u.id }),
                Err(e) => Err(ErrorView::Model(model::error::ErrorView::Pwd(e))),
            },
        },
    }
}

/// Checks the credentials of a login against the user that the
/// repository found for the payload's user name.
pub fn api_login_verify(user: &Option<UserForLogin>, payload: &LoginPayload) -> (r: Result<
    SchemeStatus,
>)
    ensures
        match r {
            Ok(status) => login_verified(*user, payload.pwd@) == Ok::<SchemeStatus, ErrorView>(
                status,
            ),
            Err(e) => login_verified(*user, payload.pwd@) == Err::<SchemeStatus, ErrorView>(e@),
        },
{
    let user = match user {
        Some(u) => u,
        None => { return Err(Error::LoginFailUsernameNotFound); },
    };
    let stored = match &user.pwd {
        Some(p) => p,
        None => { return Err(Error::LoginFailUserHasNoPwd { user_id: user.id }); },
    };
    let to_hash = ContentToHash { content: payload.pwd.clone(), salt: user.pwd_salt.clone() };
    match validate_pwd(&to_hash, stored.as_str()) {
        Ok(Verdict::Match(status)) => Ok(status),
        Ok(Verdict::Mismatch) => Err(Error::LoginFailPwdNotMatching { user_id: user.id }),
        Err(e) => Err(Error::Model(model::Error::Pwd(e))),
    }
}

/// What follows a good check of the credentials: a password that matched
/// under an outdated scheme is stored anew first; else the login is
/// answered.
pub fn api_login_next(status: SchemeStatus) -> (step: LoginStep)
    ensures
        step == if status == SchemeStatus::Outdated {
            LoginStep::StorePwd
        } else {
            LoginStep::Respond
        },
{
    match status {
        SchemeStatus::Outdated => LoginStep::StorePwd,
        SchemeStatus::Current => LoginStep::Respond,
    }
}

/// The greeting of a login response.
pub open spec fn welcome_message(username: Seq<char>) -> Seq<char> {
    "Welcome back, "@ + username + "!"@
}

/// `r` is the answer to a login of `user`, typed in as `username`, at the
/// instant `now`: the pair of tokens minted for the user, both of which
/// open to the user's name and rotation salt, the access token also in
/// the session cookie; or the codec's error, exactly where minting fails.
pub open spec fn login_answered_at(
    config: &AuthConfig,
    user: &UserForLogin,
    username: String,
    secure: bool,
    now: i64,
    r: Result<(LoginResponse, TokenCookie)>,
) -> bool {
    match r {
        Ok((response, cookie)) => {
            &&& response.success
            &&& response.message@ == welcome_message(username@)
            &&& response.user.id == user.id
            &&& response.user.username@ == username@
            &&& response.token matches Some(access) && response.refresh_token matches Some(
                refresh,
            ) && {
                &&& web_tokens_at(config, user.username@, user.token_salt@, now) == Ok::<
                    (Seq<char>, Seq<char>),
                    crate::token::Error,
                >((access@, refresh@))
                &&& pair_opens(
                    config,
                    (access@, refresh@),
                    user.username@,
                    user.token_salt@,
                    now,
                )
                &&& cookie@ == session_cookie(access@, secure)
            }
        },
        Err(e) => web_tokens_at(config, user.username@, user.token_salt@, now) matches Err(
            cause,
        ) && e@ == ErrorView::Token(cause),
    }
}

/// Answers a login whose credentials were found good, at the instant
/// `now`: mints the token pair, and returns the response, which carries
/// both tokens, and the session cookie for the access token.
pub fn api_login_respond_at(
    config: &AuthConfig,
    user: &UserForLogin,
    username: String,
    secure: bool,
    now: i64,
) -> (r: Result<(LoginResponse, TokenCookie)>)
    ensures
        login_answered_at(config, user, username, secure, now, r),
{
    let (access_token, refresh_token) = match generate_web_tokens_at(
        config,
        user.username.as_str(),
        user.token_salt.as_str(),
        now,
    ) {
        Ok(pair) => pair,
        Err(e) => { return Err(Error::from(e)); },
    };
    let cookie = session_cookie_for(access_token.as_str(), secure);
    let mut message = joined("Welcome back, ", username.as_str());
    message.append("!");
    let response = LoginResponse {
        success: true,
        message,
        user: UserDTO { id: user.id, username },
        token: Some(access_token),
        refresh_token: Some(refresh_token),
    };
    Ok((response, cookie))
}

/// Answers a login whose credentials were found good, now, by the system
/// clock.
pub fn api_login_respond(config: &AuthConfig, user: &UserForLogin, username: String, secure: bool) -> (r:
    Result<(LoginResponse, TokenCookie)>)
    ensures
        exists|now: i64|
            now >= 0 && #[trigger] login_answered_at(config, user, username, secure, now, r),
        r matches Ok((response, cookie)) ==> {
            &&& response.success
            &&& response.message@ == welcome_message(username@)
            &&& response.user.id == user.id
            &&& response.user.username@ == username@
            &&& response.token matches Some(token) && cookie@ == session_cookie(token@, secure)
            &&& response.refresh_token is Some
        },
        r matches Err(e) ==> e@ is Token,
        config.wf() && user.username@.len() > 0 ==> !(r matches Err(e) && (e@ == ErrorView::Token(
            crate::token::Error::TokenCreationFailed,
        ) || e@ == ErrorView::Token(crate::token::Error::InvalidSubject))),
{
    let now = unix_now();
    let r = api_login_respond_at(config, user, username, secure, now);
    assert(login_answered_at(config, user, username, secure, now, r));
    r
}

/// The message of a logout response.
pub open spec fn logout_message() -> Seq<char> {
    "Logged out successfully!"@
}

/// Answers a logout: the cookie to take away, where the client asked for
/// it, and the response.
pub fn api_logout_handler(payload: &LogoutPayload) -> (r: (Option<TokenCookie>, LogoutResponse))
    ensures
        match r.0 {
            Some(cookie) => payload.logout && cookie@ == removal_cookie(),
            None => !payload.logout,
        },
        r.1.success,
        r.1.message@ == logout_message(),
{
    let cookie = if payload.logout {
        Some(remove_token_cookie())
    } else {
        None
    };
    (cookie, LogoutResponse { success: true, message: "Logged out successfully!".to_owned() })
}

} // verus!
