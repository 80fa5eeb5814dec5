//! Where a request carries its token, and the cookie that carries it back.
use crate::text::{has_prefix, starts_with, strip_leading, without_leading};
use crate::token::jwt::unix_now;
use crate::token::{
    self, generate_web_tokens_at, is_pair_result, minted_claims, opens_to, web_tokens_at,
    AuthConfig, TokenClass,
};
use crate::web::error::{Error, ErrorView, Result};
use vstd::prelude::*;

verus! {

/// The name of the session cookie.
pub const AUTH_TOKEN: &'static str = "auth-token";

/// Which carrier a request's token was taken from.
#[derive(Debug, Clone, Copy, PartialEq, Eq, Structural)]
pub enum TokenSource {
    Cookie,
    Header,
}

/// A cookie, as far as this library sets it.
#[derive(Debug)]
pub struct TokenCookie {
    pub name: String,
    pub value: String,
    pub http_only: bool,
    pub secure: bool,
    pub path: String,
}

/// The mathematical value of a `TokenCookie`.
pub struct TokenCookieView {
    pub name: Seq<char>,
    pub value: Seq<char>,
    pub http_only: bool,
    pub secure: bool,
    pub path: Seq<char>,
}

impl View for TokenCookie {
    type V = TokenCookieView;

    open spec fn view(&self) -> TokenCookieView {
        TokenCookieView {
            name: self.name@,
            value: self.value@,
            http_only: self.http_only,
            secure: self.secure,
            path: self.path@,
        }
    }
}

/// The session cookie that carries `value`: not readable by scripts, sent
/// for every path of the site, and over secure transport only where
/// `secure` is set.
pub open spec fn session_cookie(value: Seq<char>, secure: bool) -> TokenCookieView {
    TokenCookieView { name: AUTH_TOKEN@, value, http_only: true, secure, path: "/"@ }
}

/// The cookie that, handed to the cookie jar for removal, takes the session
/// cookie away.
pub open spec fn removal_cookie() -> TokenCookieView {
    TokenCookieView {
        name: AUTH_TOKEN@,
        value: Seq::<char>::empty(),
        http_only: false,
        secure: false,
        path: "/"@,
    }
}

/// The token of an `Authorization` header: what follows `Bearer `, with any
/// further leading `Bearer ` taken away too; `None` where the header does
/// not begin with `Bearer `.
pub open spec fn bearer_of(header: Seq<char>) -> Option<Seq<char>> {
    if has_prefix(header, "Bearer "@) {
        Some(without_leading(header, "Bearer "@))
    } else {
        None
    }
}

/// The candidate token of a request and its carrier: the session cookie's
/// value where there is a cookie, else the bearer token of the
/// `Authorization` header, else nothing.
pub open spec fn extracted_token(cookie: Option<Seq<char>>, authorization: Option<Seq<char>>) -> Option<
    (Seq<char>, TokenSource),
> {
    match cookie {
        Some(value) => Some((value, TokenSource::Cookie)),
        None => match authorization {
            Some(header) => match bearer_of(header) {
                Some(token) => Some((token, TokenSource::Header)),
                None => None,
            },
            None => None,
        },
    }
}

/// The view of an optional string slice.
pub open spec fn opt_text(s: Option<&str>) -> Option<Seq<char>> {
    match s {
        Some(t) => Some(t@),
        None => None,
    }
}

/// The session cookie that carries an access token.
pub fn session_cookie_for(access_token: &str, secure: bool) -> (cookie: TokenCookie)
    ensures
        cookie@ == session_cookie(access_token@, secure),
{
    TokenCookie {
        name: AUTH_TOKEN.to_owned(),
        value: access_token.to_owned(),
        http_only: true,
        secure,
        path: "/".to_owned(),
    }
}

/// `r` is what setting the session cookie for `user` returns at the
/// instant `now`.
pub open spec fn cookie_set_at(
    config: &AuthConfig,
    user: &str,
    salt: &str,
    secure: bool,
    now: i64,
    r: Result<(TokenCookie, String)>,
) -> bool {
    match r {
        Ok((cookie, access)) => {
            &&& web_tokens_at(config, user@, salt@, now) matches Ok(pair) && pair.0 == access@
            &&& cookie@ == session_cookie(access@, secure)
            &&& opens_to(
                access@,
                config.token_key@,
                minted_claims(user@, config.access_token_ttl, salt@, TokenClass::Access, now)->0,
            )
        },
        Err(e) => web_tokens_at(config, user@, salt@, now) matches Err(cause) && e@
            == ErrorView::Token(cause),
    }
}

/// Mints the token pair for `user` at the instant `now` and makes the
/// session cookie for the access token. Returns the cookie and the access
/// token; fails, with the codec's error, exactly where minting fails.
pub fn set_token_cookie_at(config: &AuthConfig, user: &str, salt: &str, secure: bool, now: i64) -> (r:
    Result<(TokenCookie, String)>)
    ensures
        cookie_set_at(config, user, salt, secure, now, r),
{
    let (access_token, _refresh_token) = match generate_web_tokens_at(config, user, salt, now) {
        Ok(pair) => pair,
        Err(e) => { return Err(Error::from(e)); },
    };
    Ok((session_cookie_for(access_token.as_str(), secure), access_token))
}

/// Mints the token pair for `user` now, by the system clock, and makes the
/// session cookie for the access token.
pub fn set_token_cookie(config: &AuthConfig, user: &str, salt: &str, secure: bool) -> (r: Result<
    (TokenCookie, String),
>)
    ensures
        exists|now: i64| now >= 0 && #[trigger] cookie_set_at(config, user, salt, secure, now, r),
        r matches Ok((cookie, access)) ==> cookie@ == session_cookie(access@, secure),
        r matches Err(e) ==> e@ is Token,
        user@.len() == 0 ==> (r matches Err(e) && e@ == ErrorView::Token(
            token::Error::InvalidSubject,
        )),
        user@.len() > 0 && config.wf() ==> !(r matches Err(e) && (e@ == ErrorView::Token(
            token::Error::InvalidSubject,
        ) || e@ == ErrorView::Token(token::Error::TokenCreationFailed))),
{
    let now = unix_now();
    let r = set_token_cookie_at(config, user, salt, secure, now);
    assert(cookie_set_at(config, user, salt, secure, now, r));
    r
}

/// The cookie to hand to the cookie jar for removal.
pub fn remove_token_cookie() -> (cookie: TokenCookie)
    ensures
        cookie@ == removal_cookie(),
{
    TokenCookie {
        name: AUTH_TOKEN.to_owned(),
        value: String::new(),
        http_only: false,
        secure: false,
        path: "/".to_owned(),
    }
}

/// The token of an `Authorization` header's text.
pub fn extract_bearer_from_header_str(header: &str) -> (r: Option<String>)
    ensures
        match r {
            Some(token) => bearer_of(header@) == Some(token@),
            None => bearer_of(header@) is None,
        },
{
    if starts_with(header, "Bearer ") {
        Some(strip_leading(header, "Bearer "))
    } else {
        None
    }
}

/// The candidate token of a request, given the session cookie's value and
/// the text of the `Authorization` header, where the request has them.
pub fn extract_token(cookie: Option<&str>, authorization: Option<&str>) -> (r: Option<
    (String, TokenSource),
>)
    ensures
        match r {
            Some((token, source)) => extracted_token(opt_text(cookie), opt_text(authorization))
                == Some((token@, source)),
            None => extracted_token(opt_text(cookie), opt_text(authorization)) is None,
        },
{
    if let Some(value) = cookie {
        return Some((value.to_owned(), TokenSource::Cookie));
    }
    if let Some(header) = authorization {
        if let Some(token) = extract_bearer_from_header_str(header) {
            return Some((token, TokenSource::Header));
        }
    }
    None
}

/// The bearer token of a request that must carry one: `Unauthorized` where
/// there is no `Authorization` header, `InvalidToken` where the header is
/// not a bearer header.
pub fn extract_bearer_token(authorization: Option<&str>) -> (r: Result<String>)
    ensures
        match r {
            Ok(token) => authorization matches Some(header) && bearer_of(header@) == Some(token@),
            Err(e) => e@ == ErrorView::Token(
                if authorization is None {
                    token::Error::Unauthorized
                } else {
                    token::Error::InvalidToken
                },
            ) && (authorization matches Some(header) ==> bearer_of(header@) is None),
        },
{
    let header = match authorization {
        Some(h) => h,
        None => { return Err(Error::Token(token::Error::Unauthorized)); },
    };
    match extract_bearer_from_header_str(header) {
        Some(token) => Ok(token),
        None => Err(Error::Token(token::Error::InvalidToken)),
    }
}

} // verus!
