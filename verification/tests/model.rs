use session_core::ctx::{self, Ctx};
use session_core::dev_utils::seed_posts;
use session_core::model::modql_utils::{time_to_sea_value, UtcInstant};
use session_core::model::post::PostForCreate;
use session_core::model::user::{UserBmc, UserForCreate, UserForLogin, EMAIL_VERIFICATION_TTL};
use session_core::model::Error;
use session_core::pwd::{self, validate_pwd, ContentToHash, SchemeStatus, Verdict};

const PWD_SALT: &str = "3c7d4f1e-0a49-4c3b-9d59-4a7bd1e0c0aa";

fn user_c() -> UserForCreate {
    UserForCreate {
        username: "test_create_ok-user-01".to_string(),
        email: "test_create_ok user123@gmail.com 01".to_string(),
        pwd_clear: "test_create_ok pwd 01".to_string(),
    }
}

#[test]
fn new_row_holds_the_hashed_password() {
    let row =
        UserBmc::insert_row(&user_c(), PWD_SALT.to_string(), "tok-1".to_string(), 1_000).unwrap();
    assert_eq!(row.username, "test_create_ok-user-01");
    assert_eq!(row.email, "test_create_ok user123@gmail.com 01");
    assert_eq!(row.pwd_salt, PWD_SALT);
    assert!(!row.email_verified);
    assert_eq!(row.email_verification_token.as_deref(), Some("tok-1"));
    assert_eq!(row.email_verification_expires_at, Some(1_000 + 1800));
    assert_eq!(EMAIL_VERIFICATION_TTL, 30 * 60);
    let to_hash = ContentToHash {
        content: "test_create_ok pwd 01".to_string(),
        salt: PWD_SALT.to_string(),
    };
    assert_eq!(validate_pwd(&to_hash, &row.pwd), Ok(Verdict::Match(SchemeStatus::Current)));
}

#[test]
fn expiry_at_the_end_of_time() {
    let row = UserBmc::insert_row(&user_c(), PWD_SALT.to_string(), "t".to_string(), i64::MAX - 5)
        .unwrap();
    assert_eq!(row.email_verification_expires_at, Some(i64::MAX));
    let row =
        UserBmc::insert_row(&user_c(), PWD_SALT.to_string(), "t".to_string(), i64::MAX - 1800)
            .unwrap();
    assert_eq!(row.email_verification_expires_at, Some(i64::MAX));
}

#[test]
fn new_row_fails_where_hashing_fails() {
    let r = UserBmc::insert_row(&user_c(), "short".to_string(), "tok-1".to_string(), 1_000);
    assert!(matches!(r, Err(Error::Pwd(pwd::Error::HashingFailed))));
}

#[test]
fn create_draws_fresh_salt_and_token() {
    let a = UserBmc::create(&user_c()).unwrap();
    let b = UserBmc::create(&user_c()).unwrap();
    assert_eq!(a.pwd_salt.len(), 36);
    assert_eq!(a.email_verification_token.as_ref().unwrap().len(), 36);
    assert_eq!(session_core::model::user::UUID_TEXT_LENGTH, 36);
    assert_ne!(a.pwd_salt, b.pwd_salt);
    assert_ne!(a.email_verification_token, b.email_verification_token);
    assert_ne!(a.email_verification_token.as_deref(), Some(a.pwd_salt.as_str()));
    assert_ne!(a.pwd, b.pwd);
    let to_hash = ContentToHash {
        content: "test_create_ok pwd 01".to_string(),
        salt: a.pwd_salt.clone(),
    };
    assert_eq!(validate_pwd(&to_hash, &a.pwd), Ok(Verdict::Match(SchemeStatus::Current)));
    assert!(a.email_verification_expires_at.unwrap() > 1_700_000_000);
}

#[test]
fn taken_username_is_told_from_other_violations() {
    match UserBmc::unique_violation("user", "user_username_key", "demo1") {
        Some(Error::UserAlreadyExists { username }) => assert_eq!(username, "demo1"),
        other => panic!("unexpected outcome {:?}", other),
    }
    assert!(UserBmc::unique_violation("user", "username", "demo1").is_some());
    assert!(UserBmc::unique_violation("user", "user_email_key", "demo1").is_none());
    assert!(UserBmc::unique_violation("post", "user_username_key", "demo1").is_none());
    assert!(UserBmc::unique_violation("user", "", "demo1").is_none());
    assert!(UserBmc::unique_violation("user", "usernam", "demo1").is_none());
    assert!(UserBmc::unique_violation("User", "username", "demo1").is_none());
}

#[test]
fn blank_verification_token_is_invalid() {
    assert!(UserBmc::verify_email_token("test-token-123").is_ok());
    assert!(UserBmc::verify_email_token(" t ").is_ok());
    for blank in ["", " ", "\t\n", "  \u{a0}\u{2003} ", "\u{3000}"] {
        assert!(
            matches!(
                UserBmc::verify_email_token(blank),
                Err(Error::EmailVerificationTokenInvalid)
            ),
            "token {:?}",
            blank
        );
        assert!(blank.trim().is_empty());
    }
    // Not white space, though it shows as nothing.
    assert!(UserBmc::verify_email_token("\u{200b}").is_ok());
    assert!(!"\u{200b}".trim().is_empty());
}

#[test]
fn verification_needs_an_unexpired_row() {
    assert_eq!(UserBmc::verify_email(Some(42)).unwrap(), 42);
    assert!(matches!(UserBmc::verify_email(None), Err(Error::EmailVerificationTokenInvalid)));
}

#[test]
fn password_update_hashes_with_the_users_own_salt() {
    let user = UserForLogin {
        id: 1000,
        username: "demo1".to_string(),
        email: "demo1@example.com".to_string(),
        pwd: None,
        pwd_salt: PWD_SALT.to_string(),
        token_salt: "f05e8961-d6ad-4086-9e78-a6de065e5453".to_string(),
    };
    let stored = UserBmc::update_pwd(&user, "welcome").unwrap();
    assert!(stored.starts_with("#02#"));
    let to_hash = ContentToHash { content: "welcome".to_string(), salt: PWD_SALT.to_string() };
    assert_eq!(validate_pwd(&to_hash, &stored), Ok(Verdict::Match(SchemeStatus::Current)));
    let mut short = user;
    short.pwd_salt = "abc".to_string();
    assert!(matches!(
        UserBmc::update_pwd(&short, "welcome"),
        Err(Error::Pwd(pwd::Error::HashingFailed))
    ));
}

#[test]
fn users_table() {
    assert_eq!(UserBmc::table(), "user");
}

#[test]
fn contexts() {
    assert_eq!(Ctx::root_ctx().user_id(), 0);
    assert_eq!(Ctx::new(1000).unwrap().user_id(), 1000);
    assert_eq!(Ctx::new(-1).unwrap().user_id(), -1);
    assert_eq!(Ctx::new(0), Err(ctx::Error::CtxCannotNewRootCtx));
    assert_eq!(ctx::Error::CtxCannotNewRootCtx.to_string(), "CtxCannotNewRootCtx");
}

#[test]
fn instants_of_filters() {
    assert_eq!(
        time_to_sea_value(Some("1970-01-01T00:00:00Z")),
        Ok(UtcInstant { secs: 0, nanos: 0 })
    );
    assert_eq!(
        time_to_sea_value(Some("2023-11-14T22:13:20.5Z")),
        Ok(UtcInstant { secs: 1_700_000_000, nanos: 500_000_000 })
    );
    // The same instant, told in another zone.
    assert_eq!(
        time_to_sea_value(Some("2023-11-15T00:13:20+02:00")),
        Ok(UtcInstant { secs: 1_700_000_000, nanos: 0 })
    );
    assert_eq!(time_to_sea_value(None), Err("Invalid JSON datetime".to_string()));
    let refused = time_to_sea_value(Some("yesterday")).unwrap_err();
    assert_eq!(refused, chrono::DateTime::parse_from_rfc3339("yesterday").unwrap_err().to_string());
    assert!(time_to_sea_value(Some("2023-11-14 22:13:20")).is_err());
    assert!(time_to_sea_value(Some("")).is_err());
}

#[test]
fn seed_rows_pair_titles_with_descriptions() {
    let fx_titles = &["test_list_all_ok-post 01", "test_list_all_ok-post 02"];
    let fx_descriptions = &["first", "second"];
    let rows = seed_posts(fx_titles, fx_descriptions);
    assert_eq!(rows.len(), 2);
    assert_eq!(rows[0].title, "test_list_all_ok-post 01");
    assert_eq!(rows[0].description, "first");
    assert_eq!(rows[1].title, "test_list_all_ok-post 02");
    assert_eq!(rows[1].description, "second");
    for row in &rows {
        assert_eq!(row.is_published, None);
        assert_eq!(row.cover_media_url, None);
        assert_eq!(row.thumbnail_url, None);
        assert_eq!(row.media_count, None);
        assert_eq!(row.has_video, None);
    }
}

#[test]
fn seed_rows_stop_at_the_shorter_list() {
    assert_eq!(seed_posts(&["a", "b", "c"], &["x"]).len(), 1);
    assert_eq!(seed_posts(&["a"], &["x", "y"]).len(), 1);
    assert_eq!(seed_posts(&[], &["x", "y"]).len(), 0);
    assert_eq!(seed_posts(&["a"], &[]).len(), 0);
    let rows = seed_posts(&["a", "b", "c"], &["x", "y"]);
    assert_eq!(rows[1].title, "b");
    assert_eq!(rows[1].description, "y");
}

#[test]
fn bare_post() {
    let row = PostForCreate::bare("test_create_ok title", "test_create_ok description");
    assert_eq!(row.title, "test_create_ok title");
    assert_eq!(row.description, "test_create_ok description");
    assert_eq!(row.is_published, None);
    assert_eq!(row.has_video, None);
}
