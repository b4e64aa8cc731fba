//! Fixed informational texts sent to clients during the protocol.

use vstd::prelude::*;
use vstd::string::StringExecFns;

verus! {

/// Informational messages with a fixed client-visible text.
#[derive(Clone, Copy, Debug)]
pub enum Messages {
    AuthSuccess,
    AuthTo2FA,
    EmailMessage,
    EmailSent,
    EmailSubject,
    UserRegistered,
    UuidSuccess,
    YubiKeyPubInfo,
}

/// The text of [`Messages::AuthSuccess`].
pub open spec fn auth_success_text() -> Seq<char> {
    "Authentication success"@
}

/// The text of [`Messages::AuthTo2FA`].
pub open spec fn auth_to_2fa_text() -> Seq<char> {
    "Proceeding with the 2FA"@
}

/// The text of [`Messages::EmailMessage`].
pub open spec fn email_message_text() -> Seq<char> {
    "You can reset your password with the provided token"@
}

/// The text of [`Messages::EmailSent`].
pub open spec fn email_sent_text() -> Seq<char> {
    "An email was sent to your address"@
}

/// The text of [`Messages::EmailSubject`].
pub open spec fn email_subject_text() -> Seq<char> {
    "Reset your password"@
}

/// The text of [`Messages::UserRegistered`].
pub open spec fn user_registered_text() -> Seq<char> {
    "User registered"@
}

/// The text of [`Messages::UuidSuccess`].
pub open spec fn uuid_success_text() -> Seq<char> {
    "Correct UUID"@
}

/// The text of [`Messages::YubiKeyPubInfo`].
pub open spec fn yubikey_pub_info_text() -> Seq<char> {
    "Proceeding with the YubiKey"@
}

impl Messages {
    /// The fixed text shown for this message.
    pub open spec fn spec_text(&self) -> Seq<char> {
        match self {
            Messages::AuthSuccess => auth_success_text(),
            Messages::AuthTo2FA => auth_to_2fa_text(),
            Messages::EmailMessage => email_message_text(),
            Messages::EmailSent => email_sent_text(),
            Messages::EmailSubject => email_subject_text(),
            Messages::UserRegistered => user_registered_text(),
            Messages::UuidSuccess => uuid_success_text(),
            Messages::YubiKeyPubInfo => yubikey_pub_info_text(),
        }
    }

    /// Renders the fixed client-visible text of this message.
    pub fn to_string(&self) -> (r: String)
        ensures
            r@ == self.spec_text(),
    {
        match self {
            Messages::AuthSuccess => String::from_str("Authentication success"),
            Messages::AuthTo2FA => String::from_str("Proceeding with the 2FA"),
            Messages::EmailMessage => String::from_str(
                "You can reset your password with the provided token",
            ),
            Messages::EmailSent => String::from_str("An email was sent to your address"),
            Messages::EmailSubject => String::from_str("Reset your password"),
            Messages::UserRegistered => String::from_str("User registered"),
            Messages::UuidSuccess => String::from_str("Correct UUID"),
            Messages::YubiKeyPubInfo => String::from_str("Proceeding with the YubiKey"),
        }
    }
}

} // verus!
