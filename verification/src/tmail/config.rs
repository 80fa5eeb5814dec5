use crate::envs::{self, flag_of, get_env, get_env_flag, get_env_port, port_of};
use vstd::prelude::*;

verus! {

/// The mail server and what goes into every message.
#[allow(non_snake_case)]
#[derive(Debug)]
pub struct EmailConfig {
    pub SMTP_USERNAME: String,
    pub SMTP_PWD: String,
    pub SMTP_SERVER: String,
    pub SMTP_PORT: u16,
    pub USE_TLS: bool,
    pub EMAIL_VERIFICATION_BASE_URL: String,
    pub SUPPORT_EMAIL: String,
}

/// The values of the environment variables that hold the configuration,
/// each `None` where the variable is not set.
#[derive(Debug)]
pub struct EmailEnv {
    pub smtp_username: Option<String>,
    pub smtp_pwd: Option<String>,
    pub smtp_server: Option<String>,
    pub smtp_port: Option<String>,
    pub smtp_use_tls: Option<String>,
    pub email_verification_base_url: Option<String>,
    pub support_email: Option<String>,
}

/// The address of the verification page where none is configured.
pub open spec fn default_verification_base_url() -> Seq<char> {
    "http://localhost:8000/api/auth/verify"@
}

/// The address of the support desk where none is configured.
pub open spec fn default_support_email() -> Seq<char> {
    "support@mapster.com"@
}

impl EmailEnv {
    /// What is wrong with the first variable, in the order in which they
    /// are read, that is not as it must be: the user name, the password
    /// and the server must be set; the port must be set and be a port; the
    /// TLS flag must be set and be `true` or `false`.
    pub open spec fn first_failure(&self) -> Option<envs::ErrorView> {
        if self.smtp_username is None {
            Some(envs::ErrorView::MissingEnv("SMTP_USERNAME"@))
        } else if self.smtp_pwd is None {
            Some(envs::ErrorView::MissingEnv("SMTP_PWD"@))
        } else if self.smtp_server is None {
            Some(envs::ErrorView::MissingEnv("SMTP_SERVER"@))
        } else if self.smtp_port is None {
            Some(envs::ErrorView::MissingEnv("SMTP_PORT"@))
        } else if port_of(self.smtp_port->0@) is None {
            Some(envs::ErrorView::WrongFormat("SMTP_PORT"@))
        } else if self.smtp_use_tls is None {
            Some(envs::ErrorView::MissingEnv("SMTP_USE_TLS"@))
        } else if flag_of(self.smtp_use_tls->0@) is None {
            Some(envs::ErrorView::WrongFormat("SMTP_USE_TLS"@))
        } else {
            None
        }
    }
}

/// The value of an optional variable, or its default.
fn or_default(value: Option<String>, default: &'static str) -> (r: String)
    ensures
        r@ == match value {
            Some(v) => v@,
            None => default@,
        },
{
    match value {
        Some(v) => v,
        None => default.to_owned(),
    }
}

impl EmailConfig {
    /// The configuration that the variables hold. The addresses of the
    /// verification page and of the support desk have defaults; all else
    /// is required, and the first failure is reported.
    pub fn load_from_env(env: EmailEnv) -> (r: envs::Result<EmailConfig>)
        ensures
            match r {
                Ok(config) => {
                    &&& env.first_failure() is None
                    &&& env.smtp_username == Some(config.SMTP_USERNAME)
                    &&& env.smtp_pwd == Some(config.SMTP_PWD)
                    &&& env.smtp_server == Some(config.SMTP_SERVER)
                    &&& port_of(env.smtp_port->0@) == Some(config.SMTP_PORT)
                    &&& flag_of(env.smtp_use_tls->0@) == Some(config.USE_TLS)
                    &&& config.EMAIL_VERIFICATION_BASE_URL@ == match env.email_verification_base_url {
                        Some(v) => v@,
                        None => default_verification_base_url(),
                    }
                    &&& config.SUPPORT_EMAIL@ == match env.support_email {
                        Some(v) => v@,
                        None => default_support_email(),
                    }
                },
                Err(e) => env.first_failure() == Some(e@),
            },
    {
        let username = match get_env("SMTP_USERNAME", env.smtp_username) {
            Ok(v) => v,
            Err(e) => { return Err(e); },
        };
        let pwd = match get_env("SMTP_PWD", env.smtp_pwd) {
            Ok(v) => v,
            Err(e) => { return Err(e); },
        };
        let server = match get_env("SMTP_SERVER", env.smtp_server) {
            Ok(v) => v,
            Err(e) => { return Err(e); },
        };
        let port = match get_env_port("SMTP_PORT", env.smtp_port) {
            Ok(v) => v,
            Err(e) => { return Err(e); },
        };
        let use_tls = match get_env_flag("SMTP_USE_TLS", env.smtp_use_tls) {
            Ok(v) => v,
            Err(e) => { return Err(e); },
        };
        Ok(
            EmailConfig {
                SMTP_USERNAME: username,
                SMTP_PWD: pwd,
                SMTP_SERVER: server,
                SMTP_PORT: port,
                USE_TLS: use_tls,
                EMAIL_VERIFICATION_BASE_URL: or_default(
                    env.email_verification_base_url,
                    "http://localhost:8000/api/auth/verify",
                ),
                SUPPORT_EMAIL: or_default(env.support_email, "support@mapster.com"),
            },
        )
    }
}

} // verus!
