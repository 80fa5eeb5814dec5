//! The context resolver and the request entry filter.
//!
//! Resolving a raw token to an identity takes five steps, each of which
//! guards the next: open the token; look the subject up; compare the
//! token's rotation salt with the subject's current one; compare the
//! token's class with the one the operation expects; make the context, and
//! for a token that came by cookie mint its successor. The look-up in the
//! repository is the caller's; it stands between `ctx_resolve_claims` and
//! `ctx_resolve_user`.
//!
//! A token that came by cookie must get its successor: where minting it
//! fails, the request is rejected with `CannotSetTokenCookie`.
//!
//! A request that presented the session cookie and is rejected, for
//! whatever reason, loses the cookie: the filter hands out the cookie to
//! remove, with the path the session cookie was set with. A request that
//! presented no cookie has none to lose.
use crate::ctx::{self, Ctx};
use crate::model::user::{UserForAuth, UserForAuthView};
use crate::text::same_text;
use crate::token::jwt::{jwt_decoded, unix_now, ClaimsDoc, JwtFault};
use crate::token::{
    self, lemma_opens_at, opened_at, opens_to, validate_web_token_at, web_tokens_at, AuthConfig,
    ClaimsView, TokenClaims, TokenClass,
};
use crate::web::error::{Error, ErrorView};
use crate::web::utils::token::{
    extract_token, extracted_token, opt_text, remove_token_cookie, removal_cookie, session_cookie,
    set_token_cookie_at, TokenCookie, TokenSource,
};
use vstd::prelude::*;

verus! {

/// The identity context, as handlers extract it from a request.
#[derive(Debug, Clone, Copy, PartialEq, Eq, Structural)]
pub struct CtxW(pub Ctx);

/// Why a request was not resolved to an identity.
#[derive(Debug)]
pub enum CtxExtError {
    TokenNotInCookie,
    TokenMissing,
    TokenWrongFormat,
    UserNotFound,
    ModelAccessError(String),
    FailValidate,
    /// The token is genuine but of another class than the operation expects.
    InvalidToken,
    CannotSetTokenCookie,
    CtxNotInRequestExt,
    CtxCreateFail(String),
}

/// The mathematical value of a `CtxExtError`.
pub enum Rejection {
    TokenNotInCookie,
    TokenMissing,
    TokenWrongFormat,
    UserNotFound,
    ModelAccessError(Seq<char>),
    FailValidate,
    InvalidToken,
    CannotSetTokenCookie,
    CtxNotInRequestExt,
    CtxCreateFail(Seq<char>),
}

impl View for CtxExtError {
    type V = Rejection;

    open spec fn view(&self) -> Rejection {
        match self {
            CtxExtError::TokenNotInCookie => Rejection::TokenNotInCookie,
            CtxExtError::TokenMissing => Rejection::TokenMissing,
            CtxExtError::TokenWrongFormat => Rejection::TokenWrongFormat,
            CtxExtError::UserNotFound => Rejection::UserNotFound,
            CtxExtError::ModelAccessError(detail) => Rejection::ModelAccessError(detail@),
            CtxExtError::FailValidate => Rejection::FailValidate,
            CtxExtError::InvalidToken => Rejection::InvalidToken,
            CtxExtError::CannotSetTokenCookie => Rejection::CannotSetTokenCookie,
            CtxExtError::CtxNotInRequestExt => Rejection::CtxNotInRequestExt,
            CtxExtError::CtxCreateFail(detail) => Rejection::CtxCreateFail(detail@),
        }
    }
}

impl Clone for CtxExtError {
    fn clone(&self) -> (copy: Self)
        ensures
            copy@ == self@,
    {
        match self {
            CtxExtError::TokenNotInCookie => CtxExtError::TokenNotInCookie,
            CtxExtError::TokenMissing => CtxExtError::TokenMissing,
            CtxExtError::TokenWrongFormat => CtxExtError::TokenWrongFormat,
            CtxExtError::UserNotFound => CtxExtError::UserNotFound,
            CtxExtError::ModelAccessError(detail) => CtxExtError::ModelAccessError(detail.clone()),
            CtxExtError::FailValidate => CtxExtError::FailValidate,
            CtxExtError::InvalidToken => CtxExtError::InvalidToken,
            CtxExtError::CannotSetTokenCookie => CtxExtError::CannotSetTokenCookie,
            CtxExtError::CtxNotInRequestExt => CtxExtError::CtxNotInRequestExt,
            CtxExtError::CtxCreateFail(detail) => CtxExtError::CtxCreateFail(detail.clone()),
        }
    }
}

/// The outcome of resolving one request, kept for the request's lifetime.
pub type CtxExtResult = core::result::Result<CtxW, CtxExtError>;

/// The mathematical value of a `CtxExtResult`: the principal's identifier,
/// or the rejection.
pub open spec fn outcome_view(r: CtxExtResult) -> core::result::Result<i64, Rejection> {
    match r {
        Ok(w) => Ok(w.0@),
        Err(e) => Err(e@),
    }
}

/// A resolved request: the identity, and the session cookie to set where
/// the token came by cookie.
#[derive(Debug)]
pub struct Resolved {
    pub ctx: CtxW,
    pub cookie: Option<TokenCookie>,
}

/// Step one. Whatever the codec objects to, the rejection is the same.
pub open spec fn resolved_claims(
    opened: core::result::Result<ClaimsView, token::Error>,
) -> core::result::Result<ClaimsView, Rejection> {
    match opened {
        Ok(claims) => Ok(claims),
        Err(_) => Err(Rejection::FailValidate),
    }
}

/// Steps two to four, given the repository's answer for the subject: a
/// failed look-up is `ModelAccessError` with the repository's report; an
/// absent subject is `UserNotFound`; a rotation salt that is not the
/// subject's current one is `FailValidate`; a class other than the expected
/// is `InvalidToken`.
pub open spec fn resolved_user(
    claims: ClaimsView,
    lookup: core::result::Result<Option<UserForAuthView>, Seq<char>>,
    expected: TokenClass,
) -> core::result::Result<UserForAuthView, Rejection> {
    match lookup {
        Err(detail) => Err(Rejection::ModelAccessError(detail)),
        Ok(None) => Err(Rejection::UserNotFound),
        Ok(Some(user)) => if claims.salt != user.token_salt {
            Err(Rejection::FailValidate)
        } else if claims.typ != expected {
            Err(Rejection::InvalidToken)
        } else {
            Ok(user)
        },
    }
}

/// Steps one to four for a token that the signing scheme has decoded.
pub open spec fn resolved(
    decoded: core::result::Result<ClaimsDoc, JwtFault>,
    at: i64,
    lookup: core::result::Result<Option<UserForAuthView>, Seq<char>>,
    expected: TokenClass,
) -> core::result::Result<UserForAuthView, Rejection> {
    match resolved_claims(opened_at(decoded, at)) {
        Ok(claims) => resolved_user(claims, lookup, expected),
        Err(e) => Err(e),
    }
}

/// Step five, given what minting the successor returned: the principal's
/// identifier and the value of the cookie to set, if any.
pub open spec fn resolved_ctx(
    user: UserForAuthView,
    source: TokenSource,
    minted: core::result::Result<(Seq<char>, Seq<char>), token::Error>,
) -> core::result::Result<(i64, Option<Seq<char>>), Rejection> {
    if source == TokenSource::Cookie && minted is Err {
        Err(Rejection::CannotSetTokenCookie)
    } else if user.id == Ctx::spec_root_id() {
        Err(Rejection::CtxCreateFail(ctx::Error::CtxCannotNewRootCtx.name()))
    } else if source == TokenSource::Cookie {
        Ok((user.id, Some(minted->Ok_0.0)))
    } else {
        Ok((user.id, None))
    }
}

/// The view of what the repository answered.
pub open spec fn lookup_view(
    lookup: core::result::Result<Option<UserForAuth>, String>,
) -> core::result::Result<Option<UserForAuthView>, Seq<char>> {
    match lookup {
        Ok(Some(user)) => Ok(Some(user@)),
        Ok(None) => Ok(None),
        Err(detail) => Err(detail@),
    }
}

/// Step one at the instant `now`: opens the token.
pub fn ctx_resolve_claims_at(config: &AuthConfig, token: &String, now: i64) -> (r:
    core::result::Result<TokenClaims, CtxExtError>)
    ensures
        match r {
            Ok(claims) => resolved_claims(opened_at(jwt_decoded(token@, config.token_key@), now))
                == Ok::<ClaimsView, Rejection>(claims@) && claims.wf(),
            Err(e) => resolved_claims(opened_at(jwt_decoded(token@, config.token_key@), now))
                == Err::<ClaimsView, Rejection>(e@),
        },
{
    match validate_web_token_at(config, token, now) {
        Ok(claims) => Ok(claims),
        Err(_) => Err(CtxExtError::FailValidate),
    }
}

/// Step one now, by the system clock.
pub fn ctx_resolve_claims(config: &AuthConfig, token: &String) -> (r: core::result::Result<
    TokenClaims,
    CtxExtError,
>)
    ensures
        r matches Ok(claims) ==> claims.wf(),
        r matches Err(e) ==> e@ == Rejection::FailValidate,
        exists|now: i64|
            now >= 0 && match r {
                Ok(claims) => #[trigger] resolved_claims(
                    opened_at(jwt_decoded(token@, config.token_key@), now),
                ) == Ok::<ClaimsView, Rejection>(claims@),
                Err(e) => #[trigger] resolved_claims(
                    opened_at(jwt_decoded(token@, config.token_key@), now),
                ) == Err::<ClaimsView, Rejection>(e@),
            },
{
    let now = unix_now();
    let r = ctx_resolve_claims_at(config, token, now);
    proof {
        let way = resolved_claims(opened_at(jwt_decoded(token@, config.token_key@), now));
        assert(match r {
            Ok(claims) => way == Ok::<ClaimsView, Rejection>(claims@),
            Err(e) => way == Err::<ClaimsView, Rejection>(e@),
        });
    }
    r
}

/// Steps two to four: the subject, where the repository knows it and the
/// token is still the subject's and of the expected class.
pub fn ctx_resolve_user(
    claims: &TokenClaims,
    lookup: core::result::Result<Option<UserForAuth>, String>,
    expected: TokenClass,
) -> (r: core::result::Result<UserForAuth, CtxExtError>)
    ensures
        match r {
            Ok(user) => resolved_user(claims@, lookup_view(lookup), expected) == Ok::<
                UserForAuthView,
                Rejection,
            >(user@),
            Err(e) => resolved_user(claims@, lookup_view(lookup), expected) == Err::<
                UserForAuthView,
                Rejection,
            >(e@),
        },
{
    let user = match lookup {
        Err(detail) => { return Err(CtxExtError::ModelAccessError(detail)); },
        Ok(None) => { return Err(CtxExtError::UserNotFound); },
        Ok(Some(user)) => user,
    };
    if !same_text(claims.salt.as_str(), user.token_salt.as_str()) {
        return Err(CtxExtError::FailValidate);
    }
    if claims.typ != expected {
        return Err(CtxExtError::InvalidToken);
    }
    Ok(user)
}

/// `r` is what step five returns for `user` at the instant `now`.
pub open spec fn finished_at(
    config: &AuthConfig,
    user: &UserForAuth,
    source: TokenSource,
    secure: bool,
    now: i64,
    r: core::result::Result<Resolved, CtxExtError>,
) -> bool {
    match r {
        Ok(done) => {
            &&& resolved_ctx(
                user@,
                source,
                web_tokens_at(config, user.username@, user.token_salt@, now),
            ) == Ok::<(i64, Option<Seq<char>>), Rejection>(
                (
                    done.ctx.0@,
                    match done.cookie {
                        Some(c) => Some(c.value@),
                        None => None,
                    },
                ),
            )
            &&& done.cookie matches Some(c) ==> c@ == session_cookie(c.value@, secure)
        },
        Err(e) => resolved_ctx(
            user@,
            source,
            web_tokens_at(config, user.username@, user.token_salt@, now),
        ) == Err::<(i64, Option<Seq<char>>), Rejection>(e@),
    }
}

/// Step five at the instant `now`: for a token that came by cookie, mints
/// the successor and makes its cookie; then makes the context.
pub fn ctx_resolve_finish_at(
    config: &AuthConfig,
    user: &UserForAuth,
    source: TokenSource,
    secure: bool,
    now: i64,
) -> (r: core::result::Result<Resolved, CtxExtError>)
    ensures
        finished_at(config, user, source, secure, now, r),
{
    let cookie = match source {
        TokenSource::Header => None,
        TokenSource::Cookie => {
            match set_token_cookie_at(
                config,
                user.username.as_str(),
                user.token_salt.as_str(),
                secure,
                now,
            ) {
                Ok((cookie, _access)) => Some(cookie),
                Err(_) => { return Err(CtxExtError::CannotSetTokenCookie); },
            }
        },
    };
    match Ctx::new(user.id) {
        Ok(ctx) => Ok(Resolved { ctx: CtxW(ctx), cookie }),
        Err(e) => Err(CtxExtError::CtxCreateFail(e.to_string())),
    }
}

/// Step five now, by the system clock.
pub fn ctx_resolve_finish(
    config: &AuthConfig,
    user: &UserForAuth,
    source: TokenSource,
    secure: bool,
) -> (r: core::result::Result<Resolved, CtxExtError>)
    ensures
        exists|now: i64| now >= 0 && #[trigger] finished_at(config, user, source, secure, now, r),
        r matches Ok(done) ==> done.ctx.0@ == user.id && user.id != Ctx::spec_root_id() && (
        done.cookie is Some <==> source == TokenSource::Cookie),
        r matches Ok(done) ==> (done.cookie matches Some(c) ==> c@ == session_cookie(
            c.value@,
            secure,
        )),
        r matches Err(e) ==> e@ == Rejection::CannotSetTokenCookie || e@
            == Rejection::CtxCreateFail(ctx::Error::CtxCannotNewRootCtx.name()),
        source == TokenSource::Header ==> (r is Ok <==> user.id != Ctx::spec_root_id()),
{
    let now = unix_now();
    let r = ctx_resolve_finish_at(config, user, source, secure, now);
    assert(finished_at(config, user, source, secure, now, r));
    r
}

/// Whether the entry filter takes the session cookie away: after every
/// failure of a request that presented the cookie. Where no cookie was
/// presented, there is none to take away.
pub open spec fn clears_cookie(
    outcome: core::result::Result<i64, Rejection>,
    source: Option<TokenSource>,
) -> bool {
    outcome is Err && source == Some(TokenSource::Cookie)
}

/// The cookie that the entry filter hands to the cookie jar for removal,
/// where it takes the session cookie away.
pub open spec fn cleared_cookie(
    clear: Option<TokenCookie>,
    outcome: core::result::Result<i64, Rejection>,
    source: Option<TokenSource>,
) -> bool {
    match clear {
        Some(cookie) => clears_cookie(outcome, source) && cookie@ == removal_cookie(),
        None => !clears_cookie(outcome, source),
    }
}

/// The cookie to remove after a request was resolved, if any, given the
/// carrier that its token came by.
pub fn mw_ctx_resolver_clears_cookie(outcome: &CtxExtResult, source: Option<TokenSource>) -> (r:
    Option<TokenCookie>)
    ensures
        cleared_cookie(r, outcome_view(*outcome), source),
{
    match (outcome, source) {
        (Err(_), Some(TokenSource::Cookie)) => Some(remove_token_cookie()),
        _ => None,
    }
}

/// A request whose token has been opened and whose subject is still to
/// be looked up. It is made by the entry filter's first step alone and
/// used up by its second, so that a request is resolved once.
#[derive(Debug)]
pub struct PendingCtx {
    claims: TokenClaims,
    source: TokenSource,
}

impl PendingCtx {
    /// The claims of the request's token.
    pub closed spec fn spec_claims(&self) -> ClaimsView {
        self.claims@
    }

    /// The carrier that the token came by.
    pub closed spec fn spec_source(&self) -> TokenSource {
        self.source
    }

    /// The subject to look up in the repository.
    pub fn subject(&self) -> (sub: &str)
        ensures
            sub@ == self.spec_claims().sub,
    {
        self.claims.sub.as_str()
    }

    /// The carrier that the token came by.
    pub fn source(&self) -> (source: TokenSource)
        ensures
            source == self.spec_source(),
    {
        self.source
    }
}

/// What the entry filter leaves with a request: the outcome that later
/// extraction reads, the session cookie to set, and the cookie to hand to
/// the cookie jar for removal.
#[derive(Debug)]
pub struct FilterOutcome {
    pub kept: CtxExtResult,
    pub set_cookie: Option<TokenCookie>,
    pub clear_cookie: Option<TokenCookie>,
}

/// Where the entry filter stands after its first step.
#[derive(Debug)]
pub enum FilterStep {
    /// The token opened; the caller looks its subject up.
    LookUp(PendingCtx),
    /// The request is rejected as it stands.
    Done(FilterOutcome),
}

/// The outcome of a request that is rejected with `e`, its token having
/// come by `source`.
pub open spec fn is_rejected(
    outcome: FilterOutcome,
    e: Rejection,
    source: Option<TokenSource>,
) -> bool {
    &&& outcome_view(outcome.kept) == Err::<i64, Rejection>(e)
    &&& outcome.set_cookie is None
    &&& cleared_cookie(outcome.clear_cookie, Err(e), source)
}

fn rejected(e: CtxExtError, source: Option<TokenSource>) -> (outcome: FilterOutcome)
    ensures
        is_rejected(outcome, e@, source),
{
    let kept: CtxExtResult = Err(e);
    let clear_cookie = mw_ctx_resolver_clears_cookie(&kept, source);
    FilterOutcome { kept, set_cookie: None, clear_cookie }
}

/// `step` is where the entry filter stands after its first step at the
/// instant `now`.
pub open spec fn filter_begun_at(
    config: &AuthConfig,
    cookie: Option<&str>,
    authorization: Option<&str>,
    now: i64,
    step: FilterStep,
) -> bool {
    match extracted_token(opt_text(cookie), opt_text(authorization)) {
        None => step matches FilterStep::Done(outcome) && is_rejected(
            outcome,
            Rejection::TokenMissing,
            None,
        ),
        Some((token, source)) => match resolved_claims(
            opened_at(jwt_decoded(token, config.token_key@), now),
        ) {
            Err(e) => step matches FilterStep::Done(outcome) && is_rejected(
                outcome,
                e,
                Some(source),
            ),
            Ok(claims) => step matches FilterStep::LookUp(pending) && pending.spec_claims()
                == claims && pending.spec_source() == source && claims.wf(),
        },
    }
}

/// The entry filter's first step, at the instant `now`, given the session
/// cookie's value and the text of the `Authorization` header where the
/// request has them: `TokenMissing` where it carries no token,
/// `FailValidate` where the token does not open, else the look-up to make.
pub fn mw_ctx_resolver_at(
    config: &AuthConfig,
    cookie: Option<&str>,
    authorization: Option<&str>,
    now: i64,
) -> (step: FilterStep)
    ensures
        filter_begun_at(config, cookie, authorization, now, step),
{
    let (token, source) = match extract_token(cookie, authorization) {
        Some(found) => found,
        None => { return FilterStep::Done(rejected(CtxExtError::TokenMissing, None)); },
    };
    match ctx_resolve_claims_at(config, &token, now) {
        Ok(claims) => FilterStep::LookUp(PendingCtx { claims, source }),
        Err(e) => FilterStep::Done(rejected(e, Some(source))),
    }
}

/// The entry filter's first step now, by the system clock.
pub fn mw_ctx_resolver(config: &AuthConfig, cookie: Option<&str>, authorization: Option<&str>) -> (step:
    FilterStep)
    ensures
        exists|now: i64|
            now >= 0 && #[trigger] filter_begun_at(config, cookie, authorization, now, step),
        extracted_token(opt_text(cookie), opt_text(authorization)) is None ==> (
        step matches FilterStep::Done(outcome) && is_rejected(
            outcome,
            Rejection::TokenMissing,
            None,
        )),
        step matches FilterStep::Done(outcome) ==> outcome_view(outcome.kept) == Err::<
            i64,
            Rejection,
        >(Rejection::TokenMissing) || outcome_view(outcome.kept) == Err::<i64, Rejection>(
            Rejection::FailValidate,
        ),
        step matches FilterStep::Done(outcome) ==> outcome.set_cookie is None && (
        outcome.clear_cookie is Some <==> cookie is Some),
        step matches FilterStep::LookUp(pending) ==> pending.spec_claims().wf() && (
        extracted_token(opt_text(cookie), opt_text(authorization)) matches Some(found) && found.1
            == pending.spec_source()),
{
    let now = unix_now();
    let step = mw_ctx_resolver_at(config, cookie, authorization, now);
    assert(filter_begun_at(config, cookie, authorization, now, step));
    step
}

/// `outcome` is what the entry filter leaves with a request after its
/// second step at the instant `now`.
pub open spec fn filter_finished_at(
    config: &AuthConfig,
    pending: PendingCtx,
    lookup: core::result::Result<Option<UserForAuth>, String>,
    secure: bool,
    now: i64,
    outcome: FilterOutcome,
) -> bool {
    match resolved_user(pending.spec_claims(), lookup_view(lookup), TokenClass::Access) {
        Err(e) => is_rejected(outcome, e, Some(pending.spec_source())),
        Ok(user) => match resolved_ctx(
            user,
            pending.spec_source(),
            web_tokens_at(config, user.username, user.token_salt, now),
        ) {
            Err(e) => is_rejected(outcome, e, Some(pending.spec_source())),
            Ok((id, cookie_value)) => {
                &&& outcome_view(outcome.kept) == Ok::<i64, Rejection>(id)
                &&& outcome.clear_cookie is None
                &&& match outcome.set_cookie {
                    Some(c) => cookie_value == Some(c.value@) && c@ == session_cookie(
                        c.value@,
                        secure,
                    ),
                    None => cookie_value is None,
                }
            },
        },
    }
}

/// The entry filter's second step, at the instant `now`, given the
/// repository's answer for the subject: the token must still be the
/// subject's and an access token; a token that came by cookie gets its
/// successor; the context is made.
pub fn mw_ctx_resolver_finish_at(
    config: &AuthConfig,
    pending: PendingCtx,
    lookup: core::result::Result<Option<UserForAuth>, String>,
    secure: bool,
    now: i64,
) -> (outcome: FilterOutcome)
    ensures
        filter_finished_at(config, pending, lookup, secure, now, outcome),
{
    let user = match ctx_resolve_user(&pending.claims, lookup, TokenClass::Access) {
        Ok(user) => user,
        Err(e) => { return rejected(e, Some(pending.source)); },
    };
    match ctx_resolve_finish_at(config, &user, pending.source, secure, now) {
        Ok(done) => FilterOutcome {
            kept: Ok(done.ctx),
            set_cookie: done.cookie,
            clear_cookie: None,
        },
        Err(e) => rejected(e, Some(pending.source)),
    }
}

/// The entry filter's second step now, by the system clock.
pub fn mw_ctx_resolver_finish(
    config: &AuthConfig,
    pending: PendingCtx,
    lookup: core::result::Result<Option<UserForAuth>, String>,
    secure: bool,
) -> (outcome: FilterOutcome)
    ensures
        exists|now: i64|
            now >= 0 && #[trigger] filter_finished_at(
                config,
                pending,
                lookup,
                secure,
                now,
                outcome,
            ),
        cleared_cookie(
            outcome.clear_cookie,
            outcome_view(outcome.kept),
            Some(pending.spec_source()),
        ),
        outcome.kept is Err ==> outcome.set_cookie is None,
        match resolved_user(pending.spec_claims(), lookup_view(lookup), TokenClass::Access) {
            Err(e) => is_rejected(outcome, e, Some(pending.spec_source())),
            Ok(user) => match outcome.kept {
                Ok(w) => w.0@ == user.id && (outcome.set_cookie is Some <==> pending.spec_source()
                    == TokenSource::Cookie),
                Err(e) => e@ == Rejection::CannotSetTokenCookie || e@ == Rejection::CtxCreateFail(
                    ctx::Error::CtxCannotNewRootCtx.name(),
                ),
            },
        },
{
    let now = unix_now();
    let outcome = mw_ctx_resolver_finish_at(config, pending, lookup, secure, now);
    assert(filter_finished_at(config, pending, lookup, secure, now, outcome));
    outcome
}

/// The guard before handlers that need an identity: lets the request pass
/// exactly where it was resolved, and else stops it with the failure.
pub fn mw_ctx_require(ctx: core::result::Result<CtxW, Error>) -> (r: core::result::Result<
    CtxW,
    Error,
>)
    ensures
        r == ctx,
{
    ctx
}

impl CtxW {
    /// The identity of a request, read from what the entry filter kept for
    /// it: `CtxNotInRequestExt` where the filter never ran, else the kept
    /// outcome.
    pub fn from_request_parts(kept: Option<&CtxExtResult>) -> (r: core::result::Result<CtxW, Error>)
        ensures
            match r {
                Ok(w) => kept matches Some(outcome) && *outcome matches Ok(k) && k == w,
                Err(e) => e@ == ErrorView::CtxExt(
                    match kept {
                        None => Rejection::CtxNotInRequestExt,
                        Some(outcome) => outcome->Err_0@,
                    },
                ) && !(kept matches Some(outcome) && *outcome is Ok),
            },
    {
        match kept {
            None => Err(Error::CtxExt(CtxExtError::CtxNotInRequestExt)),
            Some(Ok(w)) => Ok(*w),
            Some(Err(e)) => Err(Error::CtxExt(e.clone())),
        }
    }
}

/// Revocation by salt rotation: once the subject's stored rotation salt is
/// no longer the one a token was minted with, resolving that token fails
/// with `FailValidate`, at every instant and whatever class is expected.
pub proof fn lemma_salt_rotation_revokes(
    token: Seq<char>,
    secret: Seq<u8>,
    claims: ClaimsView,
    user: UserForAuthView,
    expected: TokenClass,
    at: i64,
)
    requires
        opens_to(token, secret, claims),
        claims.salt != user.token_salt,
    ensures
        resolved(jwt_decoded(token, secret), at, Ok(Some(user)), expected) == Err::<
            UserForAuthView,
            Rejection,
        >(Rejection::FailValidate),
{
    lemma_opens_at(token, secret, claims, at);
}

/// A token minted with the subject's current rotation salt, for the
/// expected class, resolves to the subject at every instant up to its
/// expiry.
pub proof fn lemma_current_salt_resolves(
    token: Seq<char>,
    secret: Seq<u8>,
    claims: ClaimsView,
    user: UserForAuthView,
    at: i64,
)
    requires
        opens_to(token, secret, claims),
        claims.salt == user.token_salt,
        at <= claims.exp,
    ensures
        resolved(jwt_decoded(token, secret), at, Ok(Some(user)), claims.typ) == Ok::<
            UserForAuthView,
            Rejection,
        >(user),
{
    lemma_opens_at(token, secret, claims, at);
}

/// Class enforcement: a token of another class than the expected one is
/// rejected with `InvalidToken`, though its signature, its expiry and its
/// rotation salt all pass.
pub proof fn lemma_class_enforced(
    token: Seq<char>,
    secret: Seq<u8>,
    claims: ClaimsView,
    user: UserForAuthView,
    expected: TokenClass,
    at: i64,
)
    requires
        opens_to(token, secret, claims),
        claims.salt == user.token_salt,
        at <= claims.exp,
        claims.typ != expected,
    ensures
        resolved(jwt_decoded(token, secret), at, Ok(Some(user)), expected) == Err::<
            UserForAuthView,
            Rejection,
        >(Rejection::InvalidToken),
{
    lemma_opens_at(token, secret, claims, at);
}

} // verus!
