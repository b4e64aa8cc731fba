//! The client's local account record.

use vstd::prelude::*;
use crate::email::Email;
use crate::password::Password;

verus! {

/// What a client keeps about its own account: the address, the raw
/// password (which never leaves the client in the clear), the
/// second-factor preference and the enrolled public key bytes.
#[derive(Debug)]
pub struct User {
    pub email: Email,
    pub password: Password,
    pub switch_2fa: bool,
    pub yk_info: Vec<u8>,
}

} // verus!
