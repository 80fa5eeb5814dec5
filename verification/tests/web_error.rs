use session_core::model;
use session_core::token;
use session_core::web::error::{ClientError, Error};
use session_core::web::handlers::email_shape::is_email_shape;
use session_core::web::handlers::handlers_email::{api_verify_email_response, VerifyEmailPayload};
use session_core::web::handlers::validation::one_line;
use session_core::web::handlers::handlers_register::{
    api_registration_response, api_registration_user, RegistrationPayload,
};
use session_core::web::middleware::mw_auth::CtxExtError;

fn status_and_message(e: Error) -> (u16, ClientError) {
    e.client_status_and_error()
}

#[test]
fn login_failures_are_one_refusal() {
    for e in [
        Error::LoginFailUsernameNotFound,
        Error::LoginFailUserHasNoPwd { user_id: 5 },
        Error::LoginFailPwdNotMatching { user_id: 5 },
    ] {
        let (status, message) = status_and_message(e);
        assert_eq!(status, 403);
        assert!(matches!(message, ClientError::LOGIN_FAIL));
    }
}

#[test]
fn authentication_failures_are_the_same_refusal() {
    for e in [
        CtxExtError::TokenNotInCookie,
        CtxExtError::TokenMissing,
        CtxExtError::TokenWrongFormat,
        CtxExtError::UserNotFound,
        CtxExtError::FailValidate,
        CtxExtError::InvalidToken,
        CtxExtError::CannotSetTokenCookie,
        CtxExtError::CtxNotInRequestExt,
        CtxExtError::CtxCreateFail("CtxCannotNewRootCtx".to_string()),
    ] {
        let (status, message) = status_and_message(Error::CtxExt(e));
        assert_eq!(status, 403);
        assert!(matches!(message, ClientError::LOGIN_FAIL));
    }
    for e in [
        token::Error::ExpiredToken,
        token::Error::TokenSignatureMismatch,
        token::Error::InvalidToken,
        token::Error::TokenDecodeFailed,
        token::Error::Unauthorized,
        token::Error::InvalidSubject,
    ] {
        let (status, message) = status_and_message(Error::Token(e));
        assert_eq!(status, 403);
        assert!(matches!(message, ClientError::LOGIN_FAIL));
    }
}

#[test]
fn unreachable_repository_is_a_failure_of_the_service() {
    let e = Error::CtxExt(CtxExtError::ModelAccessError("pool timed out".to_string()));
    let (status, message) = status_and_message(e);
    assert_eq!(status, 500);
    assert!(matches!(message, ClientError::SERVICE_ERROR));
}

#[test]
fn validation_failure_is_a_bad_request() {
    let e = Error::Model(model::Error::ValidationFail("Passwords do not match".to_string()));
    let (status, message) = status_and_message(e);
    assert_eq!(status, 400);
    match message {
        ClientError::RPC_PARAMS_INVALID(detail) => assert_eq!(detail, "Validation failed"),
        other => panic!("unexpected message {:?}", other),
    }
}

#[test]
fn all_else_is_a_failure_of_the_service() {
    for e in [
        Error::ReqStampNotInReqExt,
        Error::ConfigMissingEnv("SERVICE_WEB_FOLDER"),
        Error::ConfigWrongFormat("SERVICE_WEB_FOLDER"),
        Error::Model(model::Error::EmailVerificationTokenInvalid),
        Error::Model(model::Error::EntityNotFound { entity: "post", id: 100 }),
        Error::Model(model::Error::UserAlreadyExists { username: "demo1".to_string() }),
        Error::Model(model::Error::Store("down".to_string())),
        Error::Model(model::Error::Pwd(session_core::pwd::Error::HashingFailed)),
    ] {
        let (status, message) = status_and_message(e);
        assert_eq!(status, 500);
        assert!(matches!(message, ClientError::SERVICE_ERROR));
    }
}

#[test]
fn errors_wrap_their_causes() {
    assert!(matches!(
        Error::from(token::Error::ExpiredToken),
        Error::Token(token::Error::ExpiredToken)
    ));
    assert!(matches!(
        Error::from(model::Error::EmailVerificationTokenInvalid),
        Error::Model(model::Error::EmailVerificationTokenInvalid)
    ));
}

fn payload(pwd: &str, pwd_confirm: &str) -> RegistrationPayload {
    RegistrationPayload {
        username: "alice".to_string(),
        email: "alice@example.com".to_string(),
        pwd: pwd.to_string(),
        pwd_confirm: pwd_confirm.to_string(),
    }
}

#[test]
fn registration_with_matching_passwords() {
    let user_c = api_registration_user(&payload("password123", "password123")).unwrap();
    assert_eq!(user_c.username, "alice");
    assert_eq!(user_c.email, "alice@example.com");
    assert_eq!(user_c.pwd_clear, "password123");
}

#[test]
fn registration_with_differing_passwords() {
    match api_registration_user(&payload("password123", "password124")) {
        Err(Error::Model(model::Error::ValidationFail(detail))) => {
            assert_eq!(detail, "Passwords do not match")
        }
        other => panic!("unexpected outcome {:?}", other),
    }
    assert!(api_registration_user(&payload("password123", "")).is_err());
    assert!(api_registration_user(&payload("a", "A")).is_err());
}

#[test]
fn registration_message() {
    let response = api_registration_response("alice");
    assert!(response.success);
    assert_eq!(
        response.message,
        "User 'alice' created successfully! Please check your email to verify your account."
    );
}

#[test]
fn verification_payload_and_message() {
    assert!(VerifyEmailPayload { token: "t".to_string() }.validate().is_ok());
    match (VerifyEmailPayload { token: String::new() }).validate() {
        Err(Error::Model(model::Error::ValidationFail(detail))) => {
            assert_eq!(detail, "Verification token is required")
        }
        other => panic!("unexpected outcome {:?}", other),
    }
    let response = api_verify_email_response();
    assert!(response.success);
    assert_eq!(response.message, "Email verified successfully");
}

#[test]
fn valid_payload_breaks_no_rule() {
    assert!(payload("password123", "password123").validate().is_empty());
    assert!(payload("123456", "x").validate().is_empty());
}

#[test]
fn every_broken_rule_is_named_in_field_order() {
    let empty = RegistrationPayload {
        username: String::new(),
        email: String::new(),
        pwd: String::new(),
        pwd_confirm: String::new(),
    };
    assert_eq!(
        empty.validate(),
        vec![
            "Username is required",
            "Email is required",
            "Email is invalid",
            "Password must be at least 6 characters",
            "Confirm Password is required",
        ]
    );
    match api_registration_user(&empty) {
        Err(Error::Model(model::Error::ValidationFail(detail))) => assert_eq!(
            detail,
            "Username is required; Email is required; Email is invalid; \
             Password must be at least 6 characters; Confirm Password is required"
        ),
        other => panic!("unexpected outcome {:?}", other),
    }
}

#[test]
fn single_broken_rules() {
    let mut p = payload("12345", "12345");
    assert_eq!(p.validate(), vec!["Password must be at least 6 characters"]);
    p.pwd = "123456".to_string();
    p.email = "alice.example.com".to_string();
    assert_eq!(p.validate(), vec!["Email is invalid"]);
    match api_registration_user(&p) {
        Err(Error::Model(model::Error::ValidationFail(detail))) => {
            assert_eq!(detail, "Email is invalid")
        }
        other => panic!("unexpected outcome {:?}", other),
    }
    p.email = "alice@example.com".to_string();
    p.username = String::new();
    assert_eq!(p.validate(), vec!["Username is required"]);
    p.username = "alice".to_string();
    p.pwd_confirm = String::new();
    assert_eq!(p.validate(), vec!["Confirm Password is required"]);
}

#[test]
fn password_length_counts_what_a_reader_sees() {
    // Six letters, each with a combining accent: twelve code points, six characters.
    let six = "e\u{301}".repeat(6);
    let five = "e\u{301}".repeat(5);
    assert!(payload(&six, &six).validate().is_empty());
    assert_eq!(payload(&five, &five).validate(), vec!["Password must be at least 6 characters"]);
}

#[test]
fn rules_are_checked_before_the_passwords_are_compared() {
    match api_registration_user(&payload("12345", "54321")) {
        Err(Error::Model(model::Error::ValidationFail(detail))) => {
            assert_eq!(detail, "Password must be at least 6 characters")
        }
        other => panic!("unexpected outcome {:?}", other),
    }
}

#[test]
fn messages_in_one_line() {
    assert_eq!(one_line(&vec![]), "");
    assert_eq!(one_line(&vec!["a"]), "a");
    assert_eq!(one_line(&vec!["a", "b", "c"]), "a; b; c");
    assert_eq!(one_line(&vec!["", ""]), "; ");
}

#[test]
fn addresses_of_the_right_shape() {
    for address in [
        "test@example.com",
        "a@b.cd",
        "first.last+tag@sub.example.co",
        "USER_1%x-y@EXAMPLE-1.ORG",
        "a@b.c.de",
        "a@..de",
        ".@-.de",
        "a@b.museum",
        "test_create_ok@x.yz",
    ] {
        assert!(is_email_shape(address), "address {:?}", address);
    }
}

#[test]
fn addresses_of_the_wrong_shape() {
    for address in [
        "",
        "@",
        "a@b",
        "a@b.c",
        "a@.cd",
        "@b.cd",
        "a@b.c1",
        "a@b.cd ",
        " a@b.cd",
        "a b@c.de",
        "a@b@c.de",
        "a@b_c.de",
        "a@b.cd\n",
        "not-an-email",
        "test_create_ok user123@gmail.com 01",
        "a@b.c-d",
        "a#b@c.de",
        "\u{e9}@b.cd",
        "a@b.\u{e9}\u{e9}",
        "a@b..",
        "a@b.cd.",
    ] {
        assert!(!is_email_shape(address), "address {:?}", address);
    }
}
