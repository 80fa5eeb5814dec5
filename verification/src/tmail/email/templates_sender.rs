//! A message from a template: the placeholders filled in, and the message
//! composed by the `lettre` crate.
use super::error::{Error, Result};
use crate::text::{replace_all, replaced};
use crate::tmail::config::EmailConfig;
use lettre::message::{header, Mailbox, SinglePart};
use lettre::Message;
use vstd::prelude::*;

verus! {

/// A message ready to be handed to the mail server.
#[derive(Debug)]
pub struct OutgoingEmail {
    pub from: String,
    pub to: String,
    pub subject: String,
    /// The body, as HTML.
    pub html: String,
    /// The message as the mail server takes it.
    pub message: lettre::Message,
}

/// A message of `lettre`, with its headers and its body.
#[verifier::external_type_specification]
#[verifier::external_body]
pub struct ExMessage(lettre::Message);

/// Whether `lettre` reads `address` as a mailbox: an address, with or
/// without a display name.
pub uninterp spec fn mailbox_parses(address: Seq<char>) -> bool;

/// Whether `lettre` builds a message with an HTML body out of a sender and
/// a recipient that it reads as mailboxes, a subject and the body.
pub uninterp spec fn message_builds(
    from: Seq<char>,
    to: Seq<char>,
    subject: Seq<char>,
    html: Seq<char>,
) -> bool;

/// `str::parse::<lettre::message::Mailbox>`: whether the text is read as a
/// mailbox.
#[verifier::external_body]
fn is_mailbox(address: &str) -> (r: bool)
    ensures
        r == mailbox_parses(address@),
{
    address.parse::<Mailbox>().is_ok()
}

/// `lettre::Message::builder` with `from`, `to`, `subject`, the HTML content
/// type and `singlepart`, for a sender and a recipient that are read as
/// mailboxes. Nothing is claimed of what the message holds.
#[verifier::external_body]
fn build_message(from: &str, to: &str, subject: &str, html: &str) -> (r: Option<lettre::Message>)
    requires
        mailbox_parses(from@),
        mailbox_parses(to@),
    ensures
        r is Some <==> message_builds(from@, to@, subject@, html@),
{
    Message::builder()
        .from(from.parse::<Mailbox>().ok()?)
        .to(to.parse::<Mailbox>().ok()?)
        .subject(subject)
        .header(header::ContentType::TEXT_HTML)
        .singlepart(SinglePart::html(html.to_owned()))
        .ok()
}

/// The placeholders of a template, each with the text that takes its
/// place.
pub open spec fn placeholders_view(placeholders: Seq<(String, String)>) -> Seq<
    (Seq<char>, Seq<char>),
> {
    Seq::new(
        placeholders.len(),
        |i: int|
            {
                let (key, value) = placeholders[i];
                (key@, value@)
            },
    )
}

/// The template with the placeholders filled in, one after another in
/// the order given, each in the text that the ones before it left.
pub open spec fn rendered(template: Seq<char>, placeholders: Seq<(Seq<char>, Seq<char>)>) -> Seq<
    char,
>
    decreases placeholders.len(),
{
    if placeholders.len() == 0 {
        template
    } else {
        let (key, value) = placeholders[0];
        rendered(replaced(template, key, value), placeholders.skip(1))
    }
}

/// Fills the placeholders of a template in.
pub fn render_template(template: &str, placeholders: &Vec<(String, String)>) -> (html: String)
    ensures
        html@ == rendered(template@, placeholders_view(placeholders@)),
{
    let ghost all = placeholders_view(placeholders@);
    let mut html = template.to_owned();
    let mut i: usize = 0;
    assert(all.skip(0) =~= all);
    while i < placeholders.len()
        invariant
            i <= placeholders.len(),
            all == placeholders_view(placeholders@),
            rendered(template@, all) == rendered(html@, all.skip(i as int)),
        decreases placeholders.len() - i,
    {
        let (key, value) = &placeholders[i];
        let ghost rest = all.skip(i as int);
        assert(rest[0] == (key@, value@));
        assert(rest.skip(1) =~= all.skip(i + 1));
        html = replace_all(html.as_str(), key.as_str(), value.as_str());
        i += 1;
    }
    html
}

/// Why a message cannot be composed, if it cannot: the sender is read
/// first, then the recipient, and either is an `InvalidEmail` where it is no
/// mailbox; then the message is built, and is a `TemplateProcessing` where
/// it does not build.
pub open spec fn compose_failure(
    from: Seq<char>,
    to: Seq<char>,
    subject: Seq<char>,
    html: Seq<char>,
) -> Option<Error> {
    if !mailbox_parses(from) || !mailbox_parses(to) {
        Some(Error::InvalidEmail)
    } else if !message_builds(from, to, subject, html) {
        Some(Error::TemplateProcessing)
    } else {
        None
    }
}

/// `r` is the message for `to_email` with the given subject, made of
/// `template` with `placeholders` filled in and sent by the configured user
/// of the mail server, or the failure to compose it.
pub open spec fn is_message(
    config: &EmailConfig,
    r: Result<OutgoingEmail>,
    to_email: Seq<char>,
    subject: Seq<char>,
    template: Seq<char>,
    placeholders: Seq<(Seq<char>, Seq<char>)>,
) -> bool {
    let html = rendered(template, placeholders);
    match r {
        Ok(email) => {
            &&& compose_failure(config.SMTP_USERNAME@, to_email, subject, html) is None
            &&& email.from@ == config.SMTP_USERNAME@
            &&& email.to@ == to_email
            &&& email.subject@ == subject
            &&& email.html@ == html
        },
        Err(e) => compose_failure(config.SMTP_USERNAME@, to_email, subject, html) == Some(e),
    }
}

/// Makes the message for `to_email` out of a template. The sender is the
/// configured user of the mail server.
pub fn email_with_template(
    config: &EmailConfig,
    to_email: &str,
    subject: &str,
    template: &str,
    placeholders: &Vec<(String, String)>,
) -> (r: Result<OutgoingEmail>)
    ensures
        is_message(config, r, to_email@, subject@, template@, placeholders_view(placeholders@)),
{
    let html = render_template(template, placeholders);
    if !is_mailbox(config.SMTP_USERNAME.as_str()) {
        return Err(Error::InvalidEmail);
    }
    if !is_mailbox(to_email) {
        return Err(Error::InvalidEmail);
    }
    match build_message(config.SMTP_USERNAME.as_str(), to_email, subject, html.as_str()) {
        Some(message) => Ok(
            OutgoingEmail {
                from: config.SMTP_USERNAME.clone(),
                to: to_email.to_owned(),
                subject: subject.to_owned(),
                html,
                message,
            },
        ),
        None => Err(Error::TemplateProcessing),
    }
}

} // verus!
