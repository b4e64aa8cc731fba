//! The payloads exchanged between client and server.
//!
//! How the payloads are framed on the wire is the transport's concern;
//! the protocol engine only decides what they hold.

use vstd::prelude::*;
use crate::email::Email;
use crate::password::Password;

verus! {

/// The registration request: the address, the password and the public
/// key enrolled for the second factor.
#[derive(Debug)]
pub struct RegisterData {
    pub email: Email,
    pub password: Password,
    pub yubikey: Vec<u8>,
}

/// The email-only payload opening an authentication or reset attempt.
#[derive(Debug)]
pub struct EmailData {
    pub email: Email,
}

/// The server's challenge: the account's salt and a fresh 128-bit nonce.
#[derive(Debug)]
pub struct ChallengeData {
    pub salt: String,
    pub challenge: [u8; 16],
}

/// The client's proof of password knowledge: an HMAC over the challenge.
#[derive(Debug)]
pub struct HmacData {
    pub hmac: Vec<u8>,
}

/// A plain success-or-failure response with a fixed text.
#[derive(Debug)]
pub struct ServerMessage {
    pub message: String,
    pub success: bool,
}

/// A response that additionally announces whether a second factor is
/// required before authentication completes.
#[derive(Debug)]
pub struct ServerMessage2FA {
    pub message: String,
    pub success: bool,
    pub two_f_a: bool,
}

/// The server's answer to a second-factor toggle: the new state.
#[derive(Debug)]
pub struct Switch2FA {
    pub two_f_a: bool,
}

/// An opaque string payload from the client: a reset token or a new
/// password.
#[derive(Debug)]
pub struct ClientStringMessage {
    pub message: String,
}

/// An opaque byte payload from the client: a second-factor signature.
#[derive(Debug)]
pub struct ClientVecMessage {
    pub message: Vec<u8>,
}

/// The public key bytes the client enrolls at registration.
#[derive(Debug)]
pub struct YubiKeyPubInfoData {
    pub yubikey: Vec<u8>,
}

/// A delivery the reset flow asks of the mail transport: recipient,
/// subject, and a body embedding the reset token.
#[derive(Debug)]
pub struct MailRequest {
    pub to: String,
    pub subject: String,
    pub body: String,
}

} // verus!
