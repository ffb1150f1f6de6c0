//! The recovery of credentials: who is to get which message, and how the attempt ends
//! once the notifier was asked to deliver it. The notifier itself is outside this crate.

use vstd::prelude::*;
use crate::auth::position_with;
use crate::auth::AuthManager;
use crate::users::first_user_with;
use crate::users::Credentials;
use crate::users::SmtpConfig;
use crate::users::SmtpView;
use crate::users::UserField;

verus! {

/// Why credentials were not recovered.
#[derive(Clone, Copy, Debug, PartialEq, Eq, Structural)]
pub enum RecoveryError {
    /// No user is registered with the email.
    NoSuchEmail,
    /// No notifier configuration was set.
    NotifierUnconfigured,
    /// The notifier could not deliver the message.
    NotifierFailed,
}

impl RecoveryError {
    /// The characters of the message.
    pub open spec fn text(&self) -> Seq<char> {
        match *self {
            RecoveryError::NoSuchEmail => "No user found with that email address"@,
            RecoveryError::NotifierUnconfigured =>
                "Email configuration not set up. Please contact administrator."@,
            RecoveryError::NotifierFailed => "Recovery email could not be sent"@,
        }
    }

    /// The message shown to the user.
    pub fn message(&self) -> (text: String)
        ensures
            text@ == self.text(),
    {
        match self {
            RecoveryError::NoSuchEmail => String::from_str("No user found with that email address"),
            RecoveryError::NotifierUnconfigured => String::from_str(
                "Email configuration not set up. Please contact administrator.",
            ),
            RecoveryError::NotifierFailed => String::from_str("Recovery email could not be sent"),
        }
    }
}

/// What the notifier is to deliver: the username and the access token of a user, never
/// the password, to the user's email, through the configured mail server.
#[derive(Clone, Debug)]
pub struct RecoveryMail {
    pub to: String,
    pub username: String,
    pub access_token: String,
    pub smtp: SmtpConfig,
}

/// A recovery mail as contracts see it.
pub struct RecoveryMailView {
    pub to: Seq<char>,
    pub username: Seq<char>,
    pub access_token: Seq<char>,
    pub smtp: SmtpView,
}

impl View for RecoveryMail {
    type V = RecoveryMailView;

    open spec fn view(&self) -> RecoveryMailView {
        RecoveryMailView {
            to: self.to@,
            username: self.username@,
            access_token: self.access_token@,
            smtp: self.smtp@,
        }
    }
}

/// What a recovery for `email` yields: a mail for the first user registered with that
/// email, if there is one and a notifier configuration is set.
pub open spec fn recovery(store: Credentials, email: Seq<char>) -> Result<
    RecoveryMailView,
    RecoveryError,
> {
    match first_user_with(store.users, UserField::Email, email) {
        None => Err(RecoveryError::NoSuchEmail),
        Some(user) => match store.smtp_config {
            None => Err(RecoveryError::NotifierUnconfigured),
            Some(smtp) => Ok(
                RecoveryMailView {
                    to: user.email,
                    username: user.username,
                    access_token: user.access_token,
                    smtp,
                },
            ),
        },
    }
}

/// The text of a recovery mail: the recipient, then the username and the access token.
pub open spec fn recovery_text(mail: RecoveryMailView) -> Seq<char> {
    "=== RECOVERY EMAIL ===\nTo: "@ + mail.to
        + "\nSubject: Crusty Server Credentials Recovery\n\nHello "@ + mail.username
        + ",\n\nHere are your Crusty Server credentials:\nUsername: "@ + mail.username
        + "\nAccess Token: "@ + mail.access_token
        + "\n\nUse the username and password to log into the application.\n"@
        + "Use the access token to access the web interface.\n\n"@
        + "If you didn't request this, please ignore this message.\n"@
        + "=== END EMAIL ===\n"@
}

/// A copy of `smtp`.
fn copy_smtp(smtp: &SmtpConfig) -> (copy: SmtpConfig)
    ensures
        copy@ == smtp@,
{
    SmtpConfig {
        server: smtp.server.clone(),
        port: smtp.port,
        username: smtp.username.clone(),
        password: smtp.password.clone(),
        use_tls: smtp.use_tls,
    }
}

impl AuthManager {
    /// Prepares the recovery of the credentials of the first user registered with `email`:
    /// what the notifier is to send, and the configuration to send it with.
    pub fn recover_credentials(&self, email: &str) -> (outcome: Result<
        RecoveryMail,
        RecoveryError,
    >)
        ensures
            match recovery(self@, email@) {
                Ok(mail) => outcome matches Ok(prepared) && prepared@ == mail,
                Err(reason) => outcome matches Err(error) && error == reason,
            },
    {
        let config = self.config();
        let at = match position_with(&config.users, UserField::Email, email) {
            Some(at) => at,
            None => {
                return Err(RecoveryError::NoSuchEmail);
            },
        };
        let user = &config.users[at];
        match &config.smtp_config {
            Some(smtp) => Ok(
                RecoveryMail {
                    to: user.email.clone(),
                    username: user.username.clone(),
                    access_token: user.access_token.clone(),
                    smtp: copy_smtp(smtp),
                },
            ),
            None => Err(RecoveryError::NotifierUnconfigured),
        }
    }
}

/// Writes the text that the notifier delivers.
pub fn recovery_message(mail: &RecoveryMail) -> (text: String)
    ensures
        text@ == recovery_text(mail@),
{
    let mut text = String::from_str("=== RECOVERY EMAIL ===\nTo: ");
    text.append(mail.to.as_str());
    text.append("\nSubject: Crusty Server Credentials Recovery\n\nHello ");
    text.append(mail.username.as_str());
    text.append(",\n\nHere are your Crusty Server credentials:\nUsername: ");
    text.append(mail.username.as_str());
    text.append("\nAccess Token: ");
    text.append(mail.access_token.as_str());
    text.append("\n\nUse the username and password to log into the application.\n");
    text.append("Use the access token to access the web interface.\n\n");
    text.append("If you didn't request this, please ignore this message.\n");
    text.append("=== END EMAIL ===\n");
    text
}

/// How a recovery ends once the notifier was asked to deliver the mail.
pub fn finish_recovery(delivered: bool) -> (outcome: Result<(), RecoveryError>)
    ensures
        outcome == if delivered {
            Ok::<(), RecoveryError>(())
        } else {
            Err::<(), RecoveryError>(RecoveryError::NotifierFailed)
        },
{
    if delivered {
        Ok(())
    } else {
        Err(RecoveryError::NotifierFailed)
    }
}

} // verus!
