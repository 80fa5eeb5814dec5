use vstd::prelude::*;

verus! {

/// Why a message could not be made or sent.
#[derive(Debug)]
pub enum Error {
    // SMTP Configuration
    SmtpConfig,
    SmtpConnection,
    SmtpAuth,
    // Email Content
    InvalidEmail,
    InvalidSubject,
    TemplateNotFound,
    TemplateProcessing,
    // Sending
    SendFailed,
    RecipientRejected,
    ServerUnavailable,
    // Configuration
    MissingConfig(String),
    InvalidConfig(String),
}

pub type Result<T> = core::result::Result<T, Error>;

impl Error {
    /// What a client is told of the failure: one message for each group
    /// of causes, and nothing of the cause itself.
    pub open spec fn spec_client_message(&self) -> Seq<char> {
        match self {
            Error::SmtpConfig | Error::SmtpConnection | Error::SmtpAuth => {
                "Email service temporarily unavailable"@
            },
            Error::InvalidEmail => "Invalid email address format"@,
            Error::InvalidSubject => "Invalid email subject"@,
            Error::TemplateNotFound | Error::TemplateProcessing => "Email template error"@,
            Error::SendFailed | Error::RecipientRejected | Error::ServerUnavailable => {
                "Failed to send email"@
            },
            Error::MissingConfig(_) | Error::InvalidConfig(_) => {
                "Email service configuration error"@
            },
        }
    }

    /// What a client is told of the failure.
    pub fn client_message(&self) -> (message: &'static str)
        ensures
            message@ == self.spec_client_message(),
    {
        match self {
            Error::SmtpConfig | Error::SmtpConnection | Error::SmtpAuth => {
                "Email service temporarily unavailable"
            },
            Error::InvalidEmail => "Invalid email address format",
            Error::InvalidSubject => "Invalid email subject",
            Error::TemplateNotFound | Error::TemplateProcessing => "Email template error",
            Error::SendFailed | Error::RecipientRejected | Error::ServerUnavailable => {
                "Failed to send email"
            },
            Error::MissingConfig(_) | Error::InvalidConfig(_) => {
                "Email service configuration error"
            },
        }
    }
}

} // verus!
