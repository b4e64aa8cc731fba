//! The closed error taxonomy reported to clients.

use vstd::prelude::*;
use vstd::string::StringExecFns;

verus! {

/// Protocol-level failures.  Each carries a fixed client-visible text so
/// that no error reveals internal detail beyond its taxonomy label.
#[derive(Clone, Copy, Debug)]
pub enum Error {
    AuthFailed,
    InvalidEmail,
    UserAlreadyExist,
    TwoFAFailed,
    UuidFailed,
}

/// The client-visible text of [`Error::AuthFailed`].
pub open spec fn auth_failed_text() -> Seq<char> {
    "Authentication failed"@
}

/// The client-visible text of [`Error::InvalidEmail`].
pub open spec fn invalid_email_text() -> Seq<char> {
    "Invalid email"@
}

/// The client-visible text of [`Error::UserAlreadyExist`].
pub open spec fn user_already_exist_text() -> Seq<char> {
    "User already exists"@
}

/// The client-visible text of [`Error::TwoFAFailed`].
pub open spec fn two_fa_failed_text() -> Seq<char> {
    "2FA Failed"@
}

/// The client-visible text of [`Error::UuidFailed`].
pub open spec fn uuid_failed_text() -> Seq<char> {
    "Wrong UUID"@
}

impl Error {
    /// The fixed text shown for this error.
    pub open spec fn spec_text(&self) -> Seq<char> {
        match self {
            Error::AuthFailed => auth_failed_text(),
            Error::InvalidEmail => invalid_email_text(),
            Error::UserAlreadyExist => user_already_exist_text(),
            Error::TwoFAFailed => two_fa_failed_text(),
            Error::UuidFailed => uuid_failed_text(),
        }
    }

    /// Renders the fixed client-visible text of this error.
    pub fn to_string(&self) -> (r: String)
        ensures
            r@ == self.spec_text(),
    {
        match self {
            Error::AuthFailed => String::from_str("Authentication failed"),
            Error::InvalidEmail => String::from_str("Invalid email"),
            Error::UserAlreadyExist => String::from_str("User already exists"),
            Error::TwoFAFailed => String::from_str("2FA Failed"),
            Error::UuidFailed => String::from_str("Wrong UUID"),
        }
    }
}

} // verus!
