use session_core::ctx::Ctx;
use session_core::model::user::{UserForAuth, UserForLogin};
use session_core::pwd::{hash_pwd, hash_pwd_with, ContentToHash, Scheme, SchemeStatus};
use session_core::token::{
    self, generate_web_tokens_at, validate_web_token, validate_web_token_at, AuthConfig,
    TokenClass,
};
use session_core::web::error::Error;
use session_core::web::handlers::handlers_login::{
    api_login_next, api_login_respond, api_login_respond_at, api_login_verify,
    api_logout_handler, LoginPayload, LoginStep, LogoutPayload,
};
use session_core::web::handlers::handlers_tokens::{
    api_refresh_token_claims, api_refresh_token_claims_at, api_refresh_token_respond,
    api_refresh_token_respond_at,
};
use session_core::web::middleware::mw_auth::{
    ctx_resolve_claims, ctx_resolve_claims_at, ctx_resolve_finish, ctx_resolve_finish_at,
    ctx_resolve_user, mw_ctx_require, mw_ctx_resolver, mw_ctx_resolver_at,
    mw_ctx_resolver_clears_cookie, mw_ctx_resolver_finish, mw_ctx_resolver_finish_at,
    CtxExtError, CtxExtResult, CtxW, FilterOutcome, FilterStep, PendingCtx,
};
use session_core::web::utils::token::{
    extract_bearer_from_header_str, extract_bearer_token, extract_token, remove_token_cookie,
    set_token_cookie, set_token_cookie_at, TokenSource, AUTH_TOKEN,
};

const SALT: &str = "f05e8961-d6ad-4086-9e78-a6de065e5453";
const NEW_SALT: &str = "8e2f2a53-98a5-4b0c-8436-2c0b0f3d9a11";
const PWD_SALT: &str = "3c7d4f1e-0a49-4c3b-9d59-4a7bd1e0c0aa";
const NOW: i64 = 1_700_000_000;

fn config() -> AuthConfig {
    AuthConfig::new(b"a-test-signing-secret".to_vec(), 1800, 86400).unwrap()
}

fn user(salt: &str) -> UserForAuth {
    UserForAuth {
        id: 1000,
        username: "demo1".to_string(),
        email: "demo1@example.com".to_string(),
        token_salt: salt.to_string(),
    }
}

fn login_user(pwd: Option<String>) -> UserForLogin {
    UserForLogin {
        id: 1000,
        username: "demo1".to_string(),
        email: "demo1@example.com".to_string(),
        pwd,
        pwd_salt: PWD_SALT.to_string(),
        token_salt: SALT.to_string(),
    }
}

fn login(pwd: &str) -> LoginPayload {
    LoginPayload { username: "demo1".to_string(), pwd: pwd.to_string() }
}

fn tokens() -> (String, String) {
    generate_web_tokens_at(&config(), "demo1", SALT, NOW).unwrap()
}

// -- Extraction

#[test]
fn bearer_token_is_what_follows_the_prefix() {
    assert_eq!(extract_bearer_from_header_str("Bearer abc.def.ghi"), Some("abc.def.ghi".to_string()));
    assert_eq!(extract_bearer_from_header_str("Bearer "), Some("".to_string()));
    assert_eq!(extract_bearer_from_header_str("Bearer  x"), Some(" x".to_string()));
}

#[test]
fn repeated_bearer_prefixes_are_all_taken_away() {
    assert_eq!(extract_bearer_from_header_str("Bearer Bearer x"), Some("x".to_string()));
    assert_eq!(extract_bearer_from_header_str("Bearer Bearer Bearer "), Some("".to_string()));
    assert_eq!(extract_bearer_from_header_str("Bearer BearerX"), Some("BearerX".to_string()));
}

#[test]
fn header_without_the_prefix_has_no_bearer_token() {
    assert_eq!(extract_bearer_from_header_str(""), None);
    assert_eq!(extract_bearer_from_header_str("Bearer"), None);
    assert_eq!(extract_bearer_from_header_str("bearer abc"), None);
    assert_eq!(extract_bearer_from_header_str("Basic dXNlcjpwdw=="), None);
    assert_eq!(extract_bearer_from_header_str(" Bearer abc"), None);
}

#[test]
fn bearer_extraction_agrees_with_std() {
    for header in ["Bearer a", "Bearer Bearer a", "Bearer", "x", "Bearer \u{e9}t\u{e9}", "Bearer Bearer"] {
        let expected = if header.starts_with("Bearer ") {
            Some(header.trim_start_matches("Bearer ").to_string())
        } else {
            None
        };
        assert_eq!(extract_bearer_from_header_str(header), expected, "header {:?}", header);
    }
}

#[test]
fn cookie_is_preferred_to_the_header() {
    let r = extract_token(Some("from-cookie"), Some("Bearer from-header"));
    assert_eq!(r, Some(("from-cookie".to_string(), TokenSource::Cookie)));
    let r = extract_token(None, Some("Bearer from-header"));
    assert_eq!(r, Some(("from-header".to_string(), TokenSource::Header)));
    assert_eq!(extract_token(None, None), None);
    assert_eq!(extract_token(None, Some("Basic abc")), None);
    assert_eq!(
        extract_token(Some("from-cookie"), None),
        Some(("from-cookie".to_string(), TokenSource::Cookie))
    );
}

#[test]
fn required_bearer_token() {
    assert_eq!(extract_bearer_token(Some("Bearer abc")).unwrap(), "abc");
    assert!(matches!(
        extract_bearer_token(None),
        Err(Error::Token(token::Error::Unauthorized))
    ));
    assert!(matches!(
        extract_bearer_token(Some("Token abc")),
        Err(Error::Token(token::Error::InvalidToken))
    ));
}

// -- Cookies

#[test]
fn session_cookie_carries_the_access_token() {
    let cfg = config();
    let (cookie, access) = set_token_cookie_at(&cfg, "demo1", SALT, true, NOW).unwrap();
    assert_eq!(cookie.name, "auth-token");
    assert_eq!(cookie.name, AUTH_TOKEN);
    assert_eq!(cookie.value, access);
    assert!(cookie.http_only);
    assert!(cookie.secure);
    assert_eq!(cookie.path, "/");
    assert_eq!(access, tokens().0);
    let claims = validate_web_token_at(&cfg, &access, NOW).unwrap();
    assert_eq!(claims.typ, TokenClass::Access);

    let (cookie, _) = set_token_cookie_at(&cfg, "demo1", SALT, false, NOW).unwrap();
    assert!(!cookie.secure);
}

#[test]
fn session_cookie_for_nobody_fails() {
    let cfg = config();
    assert!(matches!(
        set_token_cookie_at(&cfg, "", SALT, true, NOW),
        Err(Error::Token(token::Error::InvalidSubject))
    ));
    assert!(matches!(
        set_token_cookie(&cfg, "", SALT, true),
        Err(Error::Token(token::Error::InvalidSubject))
    ));
    let (cookie, access) = set_token_cookie(&cfg, "demo1", SALT, true).unwrap();
    assert_eq!(cookie.value, access);
}

#[test]
fn removal_cookie_names_the_session_cookie() {
    let cookie = remove_token_cookie();
    assert_eq!(cookie.name, "auth-token");
    assert_eq!(cookie.value, "");
    assert_eq!(cookie.path, "/");
}

// -- Resolver

#[test]
fn access_token_resolves_to_the_principal() {
    let cfg = config();
    let (access, _) = tokens();
    let claims = ctx_resolve_claims_at(&cfg, &access, NOW + 10).unwrap();
    assert_eq!(claims.sub, "demo1");
    let found = ctx_resolve_user(&claims, Ok(Some(user(SALT))), TokenClass::Access).unwrap();
    let done = ctx_resolve_finish_at(&cfg, &found, TokenSource::Header, true, NOW + 10).unwrap();
    assert_eq!(done.ctx.0.user_id(), 1000);
    assert!(done.cookie.is_none());
}

#[test]
fn cookie_token_gets_its_successor() {
    let cfg = config();
    let found = user(SALT);
    let done = ctx_resolve_finish_at(&cfg, &found, TokenSource::Cookie, true, NOW + 100).unwrap();
    assert_eq!(done.ctx.0.user_id(), 1000);
    let cookie = done.cookie.unwrap();
    assert_eq!(cookie.name, "auth-token");
    assert!(cookie.http_only);
    assert_eq!(cookie.path, "/");
    let claims = validate_web_token_at(&cfg, &cookie.value, NOW + 100).unwrap();
    assert_eq!(claims.typ, TokenClass::Access);
    assert_eq!(claims.sub, "demo1");
    assert_eq!(claims.salt, SALT);
    assert_eq!(claims.iat, (NOW + 100) as u64);
    assert_eq!(claims.exp, (NOW + 100 + 1800) as u64);
}

#[test]
fn any_codec_failure_is_fail_validate() {
    let cfg = config();
    let (access, _) = tokens();
    let expired = ctx_resolve_claims_at(&cfg, &access, NOW + 1801);
    assert!(matches!(expired, Err(CtxExtError::FailValidate)));
    let garbage = ctx_resolve_claims_at(&cfg, &"no token".to_string(), NOW);
    assert!(matches!(garbage, Err(CtxExtError::FailValidate)));
    let other = AuthConfig::new(b"another secret".to_vec(), 1800, 86400).unwrap();
    let forged = ctx_resolve_claims_at(&other, &access, NOW);
    assert!(matches!(forged, Err(CtxExtError::FailValidate)));
    let by_clock = ctx_resolve_claims(&cfg, &access);
    assert!(matches!(by_clock, Err(CtxExtError::FailValidate)));
}

#[test]
fn fresh_token_resolves_by_the_clock() {
    let cfg = config();
    let (access, _) = session_core::token::generate_web_tokens(&cfg, "demo1", SALT).unwrap();
    let claims = ctx_resolve_claims(&cfg, &access).unwrap();
    let found = ctx_resolve_user(&claims, Ok(Some(user(SALT))), TokenClass::Access).unwrap();
    let done = ctx_resolve_finish(&cfg, &found, TokenSource::Cookie, false).unwrap();
    assert_eq!(done.ctx.0.user_id(), 1000);
    assert!(!done.cookie.unwrap().secure);
}

#[test]
fn absent_user_and_failed_lookup() {
    let cfg = config();
    let (access, _) = tokens();
    let claims = ctx_resolve_claims_at(&cfg, &access, NOW).unwrap();
    let r = ctx_resolve_user(&claims, Ok(None), TokenClass::Access);
    assert!(matches!(r, Err(CtxExtError::UserNotFound)));
    let r = ctx_resolve_user(&claims, Err("pool timed out".to_string()), TokenClass::Access);
    match r {
        Err(CtxExtError::ModelAccessError(detail)) => assert_eq!(detail, "pool timed out"),
        other => panic!("unexpected outcome {:?}", other),
    }
}

#[test]
fn revocation_via_salt_rotation() {
    let cfg = config();
    let (old_access, _) = tokens();
    // The principal's stored rotation salt changes.
    let rotated = user(NEW_SALT);
    let claims = ctx_resolve_claims_at(&cfg, &old_access, NOW).unwrap();
    let r = ctx_resolve_user(&claims, Ok(Some(rotated)), TokenClass::Access);
    assert!(matches!(r, Err(CtxExtError::FailValidate)));
    // A fresh token with the new salt resolves.
    let (fresh, _) = generate_web_tokens_at(&cfg, "demo1", NEW_SALT, NOW).unwrap();
    let claims = ctx_resolve_claims_at(&cfg, &fresh, NOW).unwrap();
    let r = ctx_resolve_user(&claims, Ok(Some(user(NEW_SALT))), TokenClass::Access);
    assert_eq!(r.unwrap().id, 1000);
}

#[test]
fn class_enforcement() {
    let cfg = config();
    let (access, refresh) = tokens();
    let claims = ctx_resolve_claims_at(&cfg, &refresh, NOW).unwrap();
    let r = ctx_resolve_user(&claims, Ok(Some(user(SALT))), TokenClass::Access);
    assert!(matches!(r, Err(CtxExtError::InvalidToken)));
    let r = ctx_resolve_user(&claims, Ok(Some(user(SALT))), TokenClass::Refresh);
    assert!(r.is_ok());
    let claims = ctx_resolve_claims_at(&cfg, &access, NOW).unwrap();
    let r = ctx_resolve_user(&claims, Ok(Some(user(SALT))), TokenClass::Refresh);
    assert!(matches!(r, Err(CtxExtError::InvalidToken)));
}

#[test]
fn salt_is_checked_before_class() {
    let cfg = config();
    let (_, refresh) = tokens();
    let claims = ctx_resolve_claims_at(&cfg, &refresh, NOW).unwrap();
    let r = ctx_resolve_user(&claims, Ok(Some(user(NEW_SALT))), TokenClass::Access);
    assert!(matches!(r, Err(CtxExtError::FailValidate)));
}

#[test]
fn root_identity_cannot_be_claimed() {
    let cfg = config();
    let mut root = user(SALT);
    root.id = 0;
    let r = ctx_resolve_finish_at(&cfg, &root, TokenSource::Header, true, NOW);
    match r {
        Err(CtxExtError::CtxCreateFail(detail)) => assert_eq!(detail, "CtxCannotNewRootCtx"),
        other => panic!("unexpected outcome {:?}", other),
    }
}

#[test]
fn cookie_that_cannot_be_minted_rejects_the_request() {
    let cfg = config();
    let mut nameless = user(SALT);
    nameless.username = String::new();
    let r = ctx_resolve_finish_at(&cfg, &nameless, TokenSource::Cookie, true, NOW);
    assert!(matches!(r, Err(CtxExtError::CannotSetTokenCookie)));
    // By header no successor is minted, and the request passes.
    let r = ctx_resolve_finish_at(&cfg, &nameless, TokenSource::Header, true, NOW);
    assert!(r.is_ok());
    // The cookie is minted before the context is made.
    nameless.id = 0;
    let r = ctx_resolve_finish_at(&cfg, &nameless, TokenSource::Cookie, true, NOW);
    assert!(matches!(r, Err(CtxExtError::CannotSetTokenCookie)));
}

// -- Entry filter

#[test]
fn cookie_is_cleared_after_a_failure_of_its_token() {
    let by_cookie = Some(TokenSource::Cookie);
    let ok: CtxExtResult = Ok(CtxW(Ctx::new(7).unwrap()));
    assert!(mw_ctx_resolver_clears_cookie(&ok, by_cookie).is_none());
    for failure in [
        CtxExtError::TokenWrongFormat,
        CtxExtError::UserNotFound,
        CtxExtError::ModelAccessError("x".to_string()),
        CtxExtError::FailValidate,
        CtxExtError::InvalidToken,
        CtxExtError::CannotSetTokenCookie,
        CtxExtError::CtxCreateFail("x".to_string()),
    ] {
        let kept: CtxExtResult = Err(failure);
        let cookie = mw_ctx_resolver_clears_cookie(&kept, by_cookie).unwrap();
        assert_eq!(cookie.name, "auth-token");
        assert_eq!(cookie.path, "/");
        assert_eq!(cookie.value, "");
        // No cookie was presented: there is none to take away.
        assert!(mw_ctx_resolver_clears_cookie(&kept, Some(TokenSource::Header)).is_none());
        assert!(mw_ctx_resolver_clears_cookie(&kept, None).is_none());
    }
    assert!(mw_ctx_resolver_clears_cookie(&Err(CtxExtError::TokenMissing), None).is_none());
}

fn pending(step: FilterStep) -> PendingCtx {
    match step {
        FilterStep::LookUp(p) => p,
        FilterStep::Done(outcome) => panic!("rejected at once: {:?}", outcome),
    }
}

fn done(step: FilterStep) -> FilterOutcome {
    match step {
        FilterStep::Done(outcome) => outcome,
        FilterStep::LookUp(p) => panic!("look-up asked for {:?}", p),
    }
}

fn is_removal(cookie: &Option<session_core::web::utils::token::TokenCookie>) -> bool {
    match cookie {
        Some(c) => c.name == "auth-token" && c.path == "/" && c.value.is_empty(),
        None => false,
    }
}

#[test]
fn request_without_token_is_token_missing() {
    let cfg = config();
    for step in [
        mw_ctx_resolver_at(&cfg, None, None, NOW),
        mw_ctx_resolver_at(&cfg, None, Some("Basic abc"), NOW),
        mw_ctx_resolver(&cfg, None, None),
    ] {
        let outcome = done(step);
        assert!(matches!(outcome.kept, Err(CtxExtError::TokenMissing)));
        assert!(outcome.set_cookie.is_none());
        // No cookie was presented, so none is taken away.
        assert!(outcome.clear_cookie.is_none());
    }
}

#[test]
fn request_with_a_bad_cookie_is_rejected_and_loses_the_cookie() {
    let cfg = config();
    let (access, _) = tokens();
    for step in [
        mw_ctx_resolver_at(&cfg, Some("garbage"), None, NOW),
        mw_ctx_resolver_at(&cfg, Some(&access), None, NOW + 1801),
        mw_ctx_resolver_at(&cfg, Some("a.b.c"), Some("Bearer ignored"), NOW),
        mw_ctx_resolver(&cfg, Some(&access), None),
    ] {
        let outcome = done(step);
        assert!(matches!(outcome.kept, Err(CtxExtError::FailValidate)));
        assert!(outcome.set_cookie.is_none());
        assert!(is_removal(&outcome.clear_cookie));
    }
}

#[test]
fn request_with_a_bad_bearer_token_is_rejected_and_no_cookie_is_touched() {
    let cfg = config();
    let (access, _) = tokens();
    let expired = format!("Bearer {}", access);
    for step in [
        mw_ctx_resolver_at(&cfg, None, Some("Bearer a.b.c"), NOW),
        mw_ctx_resolver_at(&cfg, None, Some(&expired), NOW + 1801),
        mw_ctx_resolver(&cfg, None, Some(&expired)),
    ] {
        let outcome = done(step);
        assert!(matches!(outcome.kept, Err(CtxExtError::FailValidate)));
        assert!(outcome.set_cookie.is_none());
        assert!(outcome.clear_cookie.is_none());
    }
}

#[test]
fn filter_resolves_a_bearer_token() {
    let cfg = config();
    let (access, _) = tokens();
    let header = format!("Bearer {}", access);
    let p = pending(mw_ctx_resolver_at(&cfg, None, Some(&header), NOW + 1800));
    assert_eq!(p.subject(), "demo1");
    assert_eq!(p.source(), TokenSource::Header);
    let outcome = mw_ctx_resolver_finish_at(&cfg, p, Ok(Some(user(SALT))), true, NOW + 1800);
    assert_eq!(outcome.kept.unwrap().0.user_id(), 1000);
    assert!(outcome.set_cookie.is_none());
    assert!(outcome.clear_cookie.is_none());
}

#[test]
fn filter_resolves_a_cookie_token_and_slides_the_session() {
    let cfg = config();
    let (access, _) = tokens();
    let p = pending(mw_ctx_resolver_at(&cfg, Some(&access), Some("Bearer ignored"), NOW + 900));
    assert_eq!(p.source(), TokenSource::Cookie);
    let outcome = mw_ctx_resolver_finish_at(&cfg, p, Ok(Some(user(SALT))), true, NOW + 900);
    assert_eq!(outcome.kept.unwrap().0.user_id(), 1000);
    assert!(outcome.clear_cookie.is_none());
    let cookie = outcome.set_cookie.unwrap();
    assert!(cookie.secure);
    let claims = validate_web_token_at(&cfg, &cookie.value, NOW + 900 + 1800).unwrap();
    assert_eq!(claims.exp, (NOW + 900 + 1800) as u64);
    assert_eq!(claims.typ, TokenClass::Access);
}

fn lookups() -> Vec<Result<Option<UserForAuth>, String>> {
    vec![Ok(None), Err("down".to_string()), Ok(Some(user(NEW_SALT))), Ok(Some(user(SALT)))]
}

#[test]
fn filter_rejects_after_the_lookup() {
    let cfg = config();
    let (access, refresh) = tokens();
    let presented = [access.as_str(), access.as_str(), access.as_str(), refresh.as_str()];
    let expected = vec!["UserNotFound", "ModelAccessError(\"down\")", "FailValidate", "InvalidToken"];

    let mut by_cookie = Vec::new();
    for (token, lookup) in presented.iter().zip(lookups()) {
        let p = pending(mw_ctx_resolver_at(&cfg, Some(token), None, NOW));
        let outcome = mw_ctx_resolver_finish_at(&cfg, p, lookup, true, NOW);
        assert!(outcome.set_cookie.is_none());
        assert!(is_removal(&outcome.clear_cookie));
        by_cookie.push(format!("{:?}", outcome.kept.unwrap_err()));
    }
    assert_eq!(by_cookie, expected);

    let mut by_header = Vec::new();
    for (token, lookup) in presented.iter().zip(lookups()) {
        let header = format!("Bearer {}", token);
        let p = pending(mw_ctx_resolver_at(&cfg, None, Some(&header), NOW));
        let outcome = mw_ctx_resolver_finish_at(&cfg, p, lookup, true, NOW);
        assert!(outcome.set_cookie.is_none());
        assert!(outcome.clear_cookie.is_none());
        by_header.push(format!("{:?}", outcome.kept.unwrap_err()));
    }
    assert_eq!(by_header, expected);
}

#[test]
fn filter_by_the_clock() {
    let cfg = config();
    let (access, _) = session_core::token::generate_web_tokens(&cfg, "demo1", SALT).unwrap();
    let p = pending(mw_ctx_resolver(&cfg, Some(&access), None));
    let outcome = mw_ctx_resolver_finish(&cfg, p, Ok(Some(user(SALT))), false);
    assert_eq!(outcome.kept.unwrap().0.user_id(), 1000);
    assert!(!outcome.set_cookie.unwrap().secure);
    assert!(outcome.clear_cookie.is_none());
}

#[test]
fn kept_outcome_is_read_back() {
    let kept: CtxExtResult = Ok(CtxW(Ctx::new(7).unwrap()));
    assert_eq!(CtxW::from_request_parts(Some(&kept)).unwrap().0.user_id(), 7);

    let kept: CtxExtResult = Err(CtxExtError::ModelAccessError("down".to_string()));
    match CtxW::from_request_parts(Some(&kept)) {
        Err(Error::CtxExt(CtxExtError::ModelAccessError(detail))) => assert_eq!(detail, "down"),
        other => panic!("unexpected outcome {:?}", other),
    }

    assert!(matches!(
        CtxW::from_request_parts(None),
        Err(Error::CtxExt(CtxExtError::CtxNotInRequestExt))
    ));
}

#[test]
fn require_passes_the_identity_or_the_failure() {
    let ok = mw_ctx_require(Ok(CtxW(Ctx::new(7).unwrap())));
    assert_eq!(ok.unwrap().0.user_id(), 7);
    let stopped = mw_ctx_require(Err(Error::CtxExt(CtxExtError::FailValidate)));
    assert!(matches!(stopped, Err(Error::CtxExt(CtxExtError::FailValidate))));
}

// -- Login

#[test]
fn login_with_the_right_password() {
    let stored = hash_pwd(&ContentToHash {
        content: "welcome".to_string(),
        salt: PWD_SALT.to_string(),
    })
    .unwrap();
    let found = Some(login_user(Some(stored)));
    assert_eq!(api_login_verify(&found, &login("welcome")).unwrap(), SchemeStatus::Current);
}

#[test]
fn login_with_a_password_of_the_older_scheme_asks_for_an_upgrade() {
    let stored = hash_pwd_with(
        Scheme::Scheme01,
        &ContentToHash { content: "welcome".to_string(), salt: PWD_SALT.to_string() },
    )
    .unwrap();
    let found = Some(login_user(Some(stored)));
    assert_eq!(api_login_verify(&found, &login("welcome")).unwrap(), SchemeStatus::Outdated);
}

#[test]
fn login_failures() {
    assert!(matches!(api_login_verify(&None, &login("welcome")), Err(Error::LoginFailUsernameNotFound)));
    let no_pwd = Some(login_user(None));
    assert!(matches!(
        api_login_verify(&no_pwd, &login("welcome")),
        Err(Error::LoginFailUserHasNoPwd { user_id: 1000 })
    ));
    let stored = hash_pwd(&ContentToHash {
        content: "welcome".to_string(),
        salt: PWD_SALT.to_string(),
    })
    .unwrap();
    let found = Some(login_user(Some(stored)));
    assert!(matches!(
        api_login_verify(&found, &login("farewell")),
        Err(Error::LoginFailPwdNotMatching { user_id: 1000 })
    ));
    let garbled = Some(login_user(Some("not a digest".to_string())));
    assert!(matches!(
        api_login_verify(&garbled, &login("welcome")),
        Err(Error::LoginFailPwdNotMatching { user_id: 1000 })
    ));
}

#[test]
fn failing_hasher_is_no_wrong_password() {
    // The stored digest names the current scheme, which refuses so short a salt.
    let mut short_salt = login_user(Some("#02#00".to_string()));
    short_salt.pwd_salt = "abc".to_string();
    let r = api_login_verify(&Some(short_salt), &login("welcome"));
    assert!(matches!(
        r,
        Err(Error::Model(session_core::model::Error::Pwd(
            session_core::pwd::Error::HashingFailed
        )))
    ));
    let (status, message) = r.unwrap_err().client_status_and_error();
    assert_eq!(status, 500);
    assert!(matches!(message, session_core::web::error::ClientError::SERVICE_ERROR));
}

#[test]
fn outdated_scheme_stores_the_password_anew_before_the_answer() {
    assert_eq!(api_login_next(SchemeStatus::Outdated), LoginStep::StorePwd);
    assert_eq!(api_login_next(SchemeStatus::Current), LoginStep::Respond);
}

#[test]
fn login_response_greets_and_carries_the_token_pair() {
    let cfg = config();
    let found = login_user(None);
    let (response, cookie) =
        api_login_respond_at(&cfg, &found, "demo1".to_string(), true, NOW).unwrap();
    assert!(response.success);
    assert_eq!(response.message, "Welcome back, demo1!");
    assert_eq!(response.user.id, 1000);
    assert_eq!(response.user.username, "demo1");
    assert_eq!(response.token.as_deref(), Some(tokens().0.as_str()));
    assert_eq!(response.refresh_token.as_deref(), Some(tokens().1.as_str()));
    assert_eq!(cookie.value, tokens().0);
    assert_eq!(cookie.name, "auth-token");
    assert!(cookie.http_only);
    assert_eq!(cookie.path, "/");

    let access = validate_web_token_at(&cfg, &response.token.unwrap(), NOW).unwrap();
    let refresh = validate_web_token_at(&cfg, &response.refresh_token.unwrap(), NOW).unwrap();
    assert_eq!((access.sub.as_str(), access.salt.as_str()), ("demo1", SALT));
    assert_eq!((refresh.sub.as_str(), refresh.salt.as_str()), ("demo1", SALT));
    assert_eq!(access.typ, TokenClass::Access);
    assert_eq!(refresh.typ, TokenClass::Refresh);

    let (response, cookie) = api_login_respond(&cfg, &found, "demo1".to_string(), false).unwrap();
    assert_eq!(response.token, Some(cookie.value));
    let refresh = validate_web_token(&cfg, &response.refresh_token.unwrap()).unwrap();
    assert_eq!(refresh.typ, TokenClass::Refresh);
}

#[test]
fn login_of_a_nameless_user_mints_nothing() {
    let cfg = config();
    let mut nameless = login_user(None);
    nameless.username = String::new();
    assert!(matches!(
        api_login_respond_at(&cfg, &nameless, "demo1".to_string(), true, NOW),
        Err(Error::Token(token::Error::InvalidSubject))
    ));
}

#[test]
fn logout_takes_the_cookie_away_when_asked() {
    let (cookie, response) = api_logout_handler(&LogoutPayload { logout: true });
    assert_eq!(cookie.unwrap().name, "auth-token");
    assert!(response.success);
    assert_eq!(response.message, "Logged out successfully!");
    let (cookie, response) = api_logout_handler(&LogoutPayload { logout: false });
    assert!(cookie.is_none());
    assert!(response.success);
    assert_eq!(response.message, "Logged out successfully!");
}

// -- Refresh

#[test]
fn refresh_token_buys_a_new_pair() {
    let cfg = config();
    let (_, refresh) = tokens();
    let header = format!("Bearer {}", refresh);
    let claims = api_refresh_token_claims_at(&cfg, Some(&header), NOW + 60).unwrap();
    assert_eq!(claims.typ, TokenClass::Refresh);
    let response =
        api_refresh_token_respond_at(&cfg, &claims, Ok(Some(user(SALT))), NOW + 60).unwrap();
    assert_eq!(response.expires_in, 1800);
    let a = validate_web_token_at(&cfg, &response.access_token, NOW + 60).unwrap();
    let r = validate_web_token_at(&cfg, &response.refresh_token, NOW + 60).unwrap();
    assert_eq!(a.typ, TokenClass::Access);
    assert_eq!(a.iat, (NOW + 60) as u64);
    assert_eq!(r.typ, TokenClass::Refresh);
    assert_eq!(r.exp, (NOW + 60 + 86400) as u64);
}

#[test]
fn refresh_failures_before_the_lookup() {
    let cfg = config();
    let (access, refresh) = tokens();
    assert!(matches!(
        api_refresh_token_claims_at(&cfg, None, NOW),
        Err(Error::Token(token::Error::Unauthorized))
    ));
    assert!(matches!(
        api_refresh_token_claims_at(&cfg, Some(&refresh), NOW),
        Err(Error::Token(token::Error::InvalidToken))
    ));
    let with_access = format!("Bearer {}", access);
    assert!(matches!(
        api_refresh_token_claims_at(&cfg, Some(&with_access), NOW),
        Err(Error::Token(token::Error::InvalidToken))
    ));
    let header = format!("Bearer {}", refresh);
    assert!(matches!(
        api_refresh_token_claims_at(&cfg, Some(&header), NOW + 86401),
        Err(Error::Token(token::Error::ExpiredToken))
    ));
    assert!(matches!(
        api_refresh_token_claims(&cfg, Some(&header)),
        Err(Error::Token(token::Error::ExpiredToken))
    ));
    let other = AuthConfig::new(b"another secret".to_vec(), 1800, 86400).unwrap();
    assert!(matches!(
        api_refresh_token_claims_at(&other, Some(&header), NOW),
        Err(Error::Token(token::Error::TokenSignatureMismatch))
    ));
    assert!(matches!(
        api_refresh_token_claims_at(&cfg, Some("Bearer x.y.z"), NOW),
        Err(Error::Token(token::Error::TokenDecodeFailed))
    ));
}

#[test]
fn refresh_failures_after_the_lookup() {
    let cfg = config();
    let (_, refresh) = tokens();
    let header = format!("Bearer {}", refresh);
    let claims = api_refresh_token_claims_at(&cfg, Some(&header), NOW).unwrap();
    assert!(matches!(
        api_refresh_token_respond_at(&cfg, &claims, Ok(None), NOW),
        Err(Error::LoginFailUsernameNotFound)
    ));
    assert!(matches!(
        api_refresh_token_respond_at(&cfg, &claims, Ok(Some(user(NEW_SALT))), NOW),
        Err(Error::Token(token::Error::InvalidToken))
    ));
    let failed = Err(session_core::model::Error::Store("pool timed out".to_string()));
    match api_refresh_token_respond_at(&cfg, &claims, failed, NOW) {
        Err(Error::Model(session_core::model::Error::Store(detail))) => {
            assert_eq!(detail, "pool timed out")
        }
        other => panic!("unexpected outcome {:?}", other),
    }
    let by_clock = api_refresh_token_respond(&cfg, &claims, Ok(Some(user(SALT)))).unwrap();
    assert_eq!(by_clock.expires_in, 1800);
}

// -- End to end

#[test]
fn login_then_present_the_tokens() {
    let cfg = config();
    // Login with correct credentials returns the pair.
    let stored = hash_pwd(&ContentToHash {
        content: "welcome".to_string(),
        salt: PWD_SALT.to_string(),
    })
    .unwrap();
    let account = login_user(Some(stored));
    let status = api_login_verify(&Some(login_user(account.pwd.clone())), &login("welcome")).unwrap();
    assert_eq!(api_login_next(status), LoginStep::Respond);
    let (response, _cookie) =
        api_login_respond_at(&cfg, &account, "demo1".to_string(), true, NOW).unwrap();
    assert_eq!(response.user.id, account.id);
    let access = response.token.unwrap();
    let refresh = response.refresh_token.unwrap();

    // The access token, presented to the entry filter, yields the principal.
    let header = format!("Bearer {}", access);
    let p = pending(mw_ctx_resolver_at(&cfg, None, Some(&header), NOW + 5));
    assert_eq!(p.subject(), account.username);
    let outcome = mw_ctx_resolver_finish_at(&cfg, p, Ok(Some(user(SALT))), true, NOW + 5);
    assert!(outcome.clear_cookie.is_none());
    let kept: CtxExtResult = outcome.kept;
    let passed = mw_ctx_require(CtxW::from_request_parts(Some(&kept)));
    assert_eq!(passed.unwrap().0.user_id(), account.id);

    // The refresh token, presented where an access token is required, is rejected.
    let header = format!("Bearer {}", refresh);
    let p = pending(mw_ctx_resolver_at(&cfg, None, Some(&header), NOW + 5));
    let outcome = mw_ctx_resolver_finish_at(&cfg, p, Ok(Some(user(SALT))), true, NOW + 5);
    let kept: CtxExtResult = outcome.kept;
    assert!(matches!(kept, Err(CtxExtError::InvalidToken)));
    let stopped = mw_ctx_require(CtxW::from_request_parts(Some(&kept)));
    assert!(matches!(stopped, Err(Error::CtxExt(CtxExtError::InvalidToken))));
    let (status, _) = stopped.unwrap_err().client_status_and_error();
    assert_eq!(status, 403);

    // The refresh token buys a new pair where refresh tokens are expected.
    let claims = api_refresh_token_claims_at(&cfg, Some(&header), NOW + 5).unwrap();
    assert!(api_refresh_token_respond_at(&cfg, &claims, Ok(Some(user(SALT))), NOW + 5).is_ok());
}
