//! The three messages that the service sends.
use super::error::Result;
use super::templates_sender::{email_with_template, is_message, placeholders_view, OutgoingEmail};
use crate::text::{joined, replace_all, replaced};
use crate::tmail::config::EmailConfig;
use vstd::prelude::*;

verus! {

/// The message that asks a new user to confirm the address.
pub const VERIFICATION_EMAIL_TEMPLATE: &'static str = "<!DOCTYPE html>
<html>
  <head>
    <meta charset=\"utf-8\">
    <title>Email verification</title>
  </head>
  <body>
    <h1>Hello, {{username}}!</h1>
    <p>Please confirm your email address to activate your account.</p>
    <p><a href=\"{{verification_link}}\">Confirm my email address</a></p>
    <p>If the button does not work, copy this link into your browser:</p>
    <p>{{verification_link}}</p>
    <p>The link is valid for 30 minutes.</p>
    <p>Questions? Write to <a href=\"mailto:{{support_email}}\">{{support_email}}</a>.</p>
  </body>
</html>
";

/// The message that welcomes a new user.
pub const WELCOME_EMAIL_TEMPLATE: &'static str = "<!DOCTYPE html>
<html>
  <head>
    <meta charset=\"utf-8\">
    <title>Welcome to Mapster</title>
  </head>
  <body>
    <h1>Welcome, {{username}}!</h1>
    <p>Your account has been created.</p>
    <p><a href=\"{{dashboard_link}}\">Open my dashboard</a></p>
    <p>Questions? Write to <a href=\"mailto:{{support_email}}\">{{support_email}}</a>.</p>
  </body>
</html>
";

/// The message that lets a user set a new password.
pub const RESET_PWD_EMAIL_TEMPLATE: &'static str = "<!DOCTYPE html>
<html>
  <head>
    <meta charset=\"utf-8\">
    <title>Reset password</title>
  </head>
  <body>
    <h1>Hello, {{username}}!</h1>
    <p>We received a request to reset your password.</p>
    <p><a href=\"{{reset_link}}\">Choose a new password</a></p>
    <p>If you did not ask for this, you can ignore this message.</p>
    <p>Questions? Write to <a href=\"mailto:{{support_email}}\">{{support_email}}</a>.</p>
  </body>
</html>
";

/// The link that confirms an address: the base address, `?token=`, the
/// token.
pub open spec fn verification_link(base_url: Seq<char>, token: Seq<char>) -> Seq<char> {
    base_url + "?token="@ + token
}

/// The link to a user's dashboard: the address of the verification page
/// with each `/verify` turned into `/dashboard`.
pub open spec fn dashboard_link(base_url: Seq<char>) -> Seq<char> {
    replaced(base_url, "/verify"@, "/dashboard"@)
}

/// What the verification message fills in.
pub open spec fn verification_placeholders(
    config: &EmailConfig,
    username: Seq<char>,
    token: Seq<char>,
) -> Seq<(Seq<char>, Seq<char>)> {
    seq![
        ("{{username}}"@, username),
        (
            "{{verification_link}}"@,
            verification_link(config.EMAIL_VERIFICATION_BASE_URL@, token),
        ),
        ("{{support_email}}"@, config.SUPPORT_EMAIL@),
    ]
}

/// What the welcome message fills in.
pub open spec fn welcome_placeholders(config: &EmailConfig, username: Seq<char>) -> Seq<
    (Seq<char>, Seq<char>),
> {
    seq![
        ("{{username}}"@, username),
        ("{{support_email}}"@, config.SUPPORT_EMAIL@),
        ("{{dashboard_link}}"@, dashboard_link(config.EMAIL_VERIFICATION_BASE_URL@)),
    ]
}

/// What the message for a new password fills in.
pub open spec fn reset_pwd_placeholders(
    config: &EmailConfig,
    reset_link: Seq<char>,
    username: Seq<char>,
) -> Seq<(Seq<char>, Seq<char>)> {
    seq![
        ("{{username}}"@, username),
        ("{{reset_link}}"@, reset_link),
        ("{{support_email}}"@, config.SUPPORT_EMAIL@),
    ]
}

/// The link that confirms an address.
pub fn create_verification_link(base_url: &str, token: &str) -> (link: String)
    ensures
        link@ == verification_link(base_url@, token@),
{
    let mut link = joined(base_url, "?token=");
    link.append(token);
    link
}

/// The link to a user's dashboard.
pub fn create_dashboard_link(base_url: &str) -> (link: String)
    ensures
        link@ == dashboard_link(base_url@),
{
    replace_all(base_url, "/verify", "/dashboard")
}

fn placeholder(key: &str, value: String) -> (pair: (String, String))
    ensures
        pair.0@ == key@,
        pair.1@ == value@,
{
    (key.to_owned(), value)
}

/// The message that asks `username` to confirm the address `to_email`.
pub fn verification_email(config: &EmailConfig, to_email: &str, username: &str, token: &str) -> (r:
    Result<OutgoingEmail>)
    ensures
        is_message(
            config,
            r,
            to_email@,
            "Email verification"@,
            VERIFICATION_EMAIL_TEMPLATE@,
            verification_placeholders(config, username@, token@),
        ),
{
    let link = create_verification_link(config.EMAIL_VERIFICATION_BASE_URL.as_str(), token);
    let mut placeholders: Vec<(String, String)> = Vec::new();
    placeholders.push(placeholder("{{username}}", username.to_owned()));
    placeholders.push(placeholder("{{verification_link}}", link));
    placeholders.push(placeholder("{{support_email}}", config.SUPPORT_EMAIL.clone()));
    assert(placeholders_view(placeholders@) =~= verification_placeholders(
        config,
        username@,
        token@,
    ));
    email_with_template(
        config,
        to_email,
        "Email verification",
        VERIFICATION_EMAIL_TEMPLATE,
        &placeholders,
    )
}

/// The message that welcomes `username`.
pub fn welcome_email(config: &EmailConfig, to_email: &str, username: &str) -> (r: Result<
    OutgoingEmail,
>)
    ensures
        is_message(
            config,
            r,
            to_email@,
            "Welcome to Mapster"@,
            WELCOME_EMAIL_TEMPLATE@,
            welcome_placeholders(config, username@),
        ),
{
    let link = create_dashboard_link(config.EMAIL_VERIFICATION_BASE_URL.as_str());
    let mut placeholders: Vec<(String, String)> = Vec::new();
    placeholders.push(placeholder("{{username}}", username.to_owned()));
    placeholders.push(placeholder("{{support_email}}", config.SUPPORT_EMAIL.clone()));
    placeholders.push(placeholder("{{dashboard_link}}", link));
    assert(placeholders_view(placeholders@) =~= welcome_placeholders(config, username@));
    email_with_template(
        config,
        to_email,
        "Welcome to Mapster",
        WELCOME_EMAIL_TEMPLATE,
        &placeholders,
    )
}

/// The message that lets `username` set a new password by `reset_link`.
pub fn reset_pwd_email(config: &EmailConfig, to_email: &str, reset_link: &str, username: &str) -> (r:
    Result<OutgoingEmail>)
    ensures
        is_message(
            config,
            r,
            to_email@,
            "Reset password"@,
            RESET_PWD_EMAIL_TEMPLATE@,
            reset_pwd_placeholders(config, reset_link@, username@),
        ),
{
    let mut placeholders: Vec<(String, String)> = Vec::new();
    placeholders.push(placeholder("{{username}}", username.to_owned()));
    placeholders.push(placeholder("{{reset_link}}", reset_link.to_owned()));
    placeholders.push(placeholder("{{support_email}}", config.SUPPORT_EMAIL.clone()));
    assert(placeholders_view(placeholders@) =~= reset_pwd_placeholders(
        config,
        reset_link@,
        username@,
    ));
    email_with_template(config, to_email, "Reset password", RESET_PWD_EMAIL_TEMPLATE, &placeholders)
}

} // verus!
