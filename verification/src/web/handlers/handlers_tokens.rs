//! Token refresh: a refresh token, presented as a bearer token, buys a
//! new pair of tokens while the subject's rotation salt is still the one
//! it was minted with.
use crate::model;
use crate::model::user::UserForAuth;
use crate::text::same_text;
use crate::token::jwt::{jwt_decoded, unix_now};
use crate::token::{
    self, generate_web_tokens_at, opened_at, validate_web_token_at, web_tokens_at, AuthConfig,
    ClaimsView, TokenClaims, TokenClass,
};
use crate::web::error::{Error, ErrorView, Result};
use crate::web::utils::token::{bearer_of, extract_bearer_token, opt_text};
use vstd::prelude::*;

verus! {

/// What a client gets for a refresh token.
#[derive(Debug)]
pub struct RefreshResponse {
    pub access_token: String,
    pub refresh_token: String,
    /// The lifetime of the access token, in seconds.
    pub expires_in: i64,
}

/// The claims of the refresh token of a request at the instant `now`:
/// `Unauthorized` without an `Authorization` header, `InvalidToken` for a
/// header that is not a bearer header, the codec's error for a token that
/// does not open, and `InvalidToken` for a token that is not a refresh
/// token.
pub open spec fn refresh_claims(
    config: &AuthConfig,
    authorization: Option<Seq<char>>,
    now: i64,
) -> core::result::Result<ClaimsView, ErrorView> {
    match authorization {
        None => Err(ErrorView::Token(token::Error::Unauthorized)),
        Some(header) => match bearer_of(header) {
            None => Err(ErrorView::Token(token::Error::InvalidToken)),
            Some(bearer) => match opened_at(jwt_decoded(bearer, config.token_key@), now) {
                Err(e) => Err(ErrorView::Token(e)),
                Ok(claims) => if claims.typ != TokenClass::Refresh {
                    Err(ErrorView::Token(token::Error::InvalidToken))
                } else {
                    Ok(claims)
                },
            },
        },
    }
}

/// What a refresh answers, given the repository's answer for the claims'
/// subject and what minting returned: the repository's failure;
/// `LoginFailUsernameNotFound` for an absent subject; `InvalidToken` for a
/// rotation salt that is no longer the subject's; else what minting
/// returned.
pub open spec fn refresh_answer(
    claims: ClaimsView,
    lookup: core::result::Result<Option<UserForAuth>, model::Error>,
    minted: core::result::Result<(Seq<char>, Seq<char>), token::Error>,
    expires_in: i64,
) -> core::result::Result<(Seq<char>, Seq<char>, i64), ErrorView> {
    match lookup {
        Err(e) => Err(ErrorView::Model(e@)),
        Ok(None) => Err(ErrorView::LoginFailUsernameNotFound),
        Ok(Some(user)) => if claims.salt != user.token_salt@ {
            Err(ErrorView::Token(token::Error::InvalidToken))
        } else {
            match minted {
                Err(e) => Err(ErrorView::Token(e)),
                Ok((access, refresh)) => Ok((access, refresh, expires_in)),
            }
        },
    }
}

/// Reads and checks the refresh token of a request at the instant `now`.
pub fn api_refresh_token_claims_at(config: &AuthConfig, authorization: Option<&str>, now: i64) -> (r:
    Result<TokenClaims>)
    ensures
        match r {
            Ok(claims) => refresh_claims(config, opt_text(authorization), now) == Ok::<
                ClaimsView,
                ErrorView,
            >(claims@) && claims.wf(),
            Err(e) => refresh_claims(config, opt_text(authorization), now) == Err::<
                ClaimsView,
                ErrorView,
            >(e@),
        },
{
    let bearer = match extract_bearer_token(authorization) {
        Ok(t) => t,
        Err(e) => { return Err(e); },
    };
    let claims = match validate_web_token_at(config, &bearer, now) {
        Ok(c) => c,
        Err(e) => { return Err(Error::from(e)); },
    };
    if claims.typ != TokenClass::Refresh {
        return Err(Error::Token(token::Error::InvalidToken));
    }
    Ok(claims)
}

/// Reads and checks the refresh token of a request now, by the system
/// clock.
pub fn api_refresh_token_claims(config: &AuthConfig, authorization: Option<&str>) -> (r: Result<
    TokenClaims,
>)
    ensures
        exists|now: i64|
            now >= 0 && match r {
                Ok(claims) => #[trigger] refresh_claims(config, opt_text(authorization), now)
                    == Ok::<ClaimsView, ErrorView>(claims@),
                Err(e) => #[trigger] refresh_claims(config, opt_text(authorization), now) == Err::<
                    ClaimsView,
                    ErrorView,
                >(e@),
            },
        r matches Ok(claims) ==> claims.wf() && claims.typ == TokenClass::Refresh,
{
    let now = unix_now();
    let r = api_refresh_token_claims_at(config, authorization, now);
    proof {
        let way = refresh_claims(config, opt_text(authorization), now);
        assert(match r {
            Ok(claims) => way == Ok::<ClaimsView, ErrorView>(claims@),
            Err(e) => way == Err::<ClaimsView, ErrorView>(e@),
        });
    }
    r
}

/// `r` is the answer to a refresh at the instant `now`.
pub open spec fn refresh_answered_at(
    config: &AuthConfig,
    claims: &TokenClaims,
    lookup: core::result::Result<Option<UserForAuth>, model::Error>,
    now: i64,
    r: Result<RefreshResponse>,
) -> bool {
    match r {
        Ok(response) => lookup matches Ok(Some(user)) && refresh_answer(
            claims@,
            lookup,
            web_tokens_at(config, user.username@, user.token_salt@, now),
            config.access_token_ttl,
        ) == Ok::<(Seq<char>, Seq<char>, i64), ErrorView>(
            (response.access_token@, response.refresh_token@, response.expires_in),
        ),
        Err(e) => match lookup {
            Ok(Some(user)) => refresh_answer(
                claims@,
                lookup,
                web_tokens_at(config, user.username@, user.token_salt@, now),
                config.access_token_ttl,
            ) == Err::<(Seq<char>, Seq<char>, i64), ErrorView>(e@),
            Ok(None) => e@ == ErrorView::LoginFailUsernameNotFound,
            Err(cause) => e@ == ErrorView::Model(cause@),
        },
    }
}

/// Answers a refresh at the instant `now`, given the repository's answer
/// for the claims' subject.
pub fn api_refresh_token_respond_at(
    config: &AuthConfig,
    claims: &TokenClaims,
    lookup: core::result::Result<Option<UserForAuth>, model::Error>,
    now: i64,
) -> (r: Result<RefreshResponse>)
    ensures
        refresh_answered_at(config, claims, lookup, now, r),
{
    let user = match lookup {
        Err(e) => { return Err(Error::from(e)); },
        Ok(None) => { return Err(Error::LoginFailUsernameNotFound); },
        Ok(Some(user)) => user,
    };
    if !same_text(claims.salt.as_str(), user.token_salt.as_str()) {
        return Err(Error::Token(token::Error::InvalidToken));
    }
    match generate_web_tokens_at(config, user.username.as_str(), user.token_salt.as_str(), now) {
        Err(e) => Err(Error::from(e)),
        Ok((access_token, refresh_token)) => Ok(
            RefreshResponse { access_token, refresh_token, expires_in: config.access_token_ttl },
        ),
    }
}

/// Answers a refresh now, by the system clock.
pub fn api_refresh_token_respond(
    config: &AuthConfig,
    claims: &TokenClaims,
    lookup: core::result::Result<Option<UserForAuth>, model::Error>,
) -> (r: Result<RefreshResponse>)
    ensures
        exists|now: i64| now >= 0 && #[trigger] refresh_answered_at(config, claims, lookup, now, r),
        r matches Ok(response) ==> lookup matches Ok(Some(user)) && claims.salt@
            == user.token_salt@ && response.expires_in == config.access_token_ttl,
        lookup matches Err(cause) ==> (r matches Err(e) && e@ == ErrorView::Model(cause@)),
        lookup matches Ok(None) ==> (r matches Err(e) && e@
            == ErrorView::LoginFailUsernameNotFound),
        lookup matches Ok(Some(user)) && claims.salt@ != user.token_salt@ ==> (r matches Err(e)
            && e@ == ErrorView::Token(token::Error::InvalidToken)),
{
    let now = unix_now();
    let r = api_refresh_token_respond_at(config, claims, lookup, now);
    assert(refresh_answered_at(config, claims, lookup, now, r));
    r
}

} // verus!
