//! SMTP configuration as the mail relay reads it from the stored settings.
use vstd::prelude::*;

verus! {

/// Transport security of the SMTP connection.
#[derive(Debug, Clone, Copy, PartialEq, Eq, Structural)]
pub enum SmtpEncryption {
    NoEncryption,
    StartTls,
    ImplicitTls,
}

/// The SMTP part of the stored settings; any field may be unset.
#[derive(Debug)]
pub struct Settings {
    pub smtp_server: Option<String>,
    pub smtp_port: Option<i32>,
    pub smtp_encryption: SmtpEncryption,
    pub smtp_user: Option<String>,
    pub smtp_password: Option<String>,
    pub smtp_sender: Option<String>,
}

#[derive(Debug, Clone, Copy, PartialEq, Eq, Structural)]
pub enum MailError {
    SmtpNotConfigured,
    EmptySettings,
    InvalidPort(i32),
}

/// A complete SMTP configuration.
#[derive(Debug)]
pub struct SmtpSettings {
    pub server: String,
    pub port: u16,
    pub encryption: SmtpEncryption,
    pub user: String,
    pub password: String,
    pub sender: String,
}

pub open spec fn smtp_configured(s: Settings) -> bool {
    &&& s.smtp_server is Some
    &&& s.smtp_port is Some
    &&& s.smtp_user is Some
    &&& s.smtp_password is Some
    &&& s.smtp_sender is Some
}

impl SmtpSettings {
    /// The SMTP configuration in `settings`: `SmtpNotConfigured` where the
    /// server, port, user, password or sender is unset, `InvalidPort` where
    /// the port is outside `0..=65535`.
    pub fn from_settings(settings: Settings) -> (r: Result<SmtpSettings, MailError>)
        ensures
            !smtp_configured(settings) ==> r == Err::<SmtpSettings, MailError>(
                MailError::SmtpNotConfigured,
            ),
            smtp_configured(settings) && !(0 <= settings.smtp_port.unwrap() <= 65535) ==> r
                == Err::<SmtpSettings, MailError>(
                MailError::InvalidPort(settings.smtp_port.unwrap()),
            ),
            smtp_configured(settings) && 0 <= settings.smtp_port.unwrap() <= 65535 ==> r
                == Ok::<SmtpSettings, MailError>(
                SmtpSettings {
                    server: settings.smtp_server.unwrap(),
                    port: settings.smtp_port.unwrap() as u16,
                    encryption: settings.smtp_encryption,
                    user: settings.smtp_user.unwrap(),
                    password: settings.smtp_password.unwrap(),
                    sender: settings.smtp_sender.unwrap(),
                },
            ),
    {
        let Settings {
            smtp_server,
            smtp_port,
            smtp_encryption,
            smtp_user,
            smtp_password,
            smtp_sender,
        } = settings;
        match (smtp_server, smtp_port, smtp_user, smtp_password, smtp_sender) {
            (Some(server), Some(port), Some(user), Some(password), Some(sender)) => {
                if port < 0 || port > 65535 {
                    return Err(MailError::InvalidPort(port));
                }
                Ok(
                    SmtpSettings {
                        server,
                        port: port as u16,
                        encryption: smtp_encryption,
                        user,
                        password,
                        sender,
                    },
                )
            },
            _ => Err(MailError::SmtpNotConfigured),
        }
    }
}

} // verus!
