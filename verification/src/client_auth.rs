//! The client side of the authentication rounds: the computations a
//! client makes between receiving a server payload and answering it.
//! The password never leaves these functions in the clear — only the
//! HMAC derived from it does.

use vstd::prelude::*;
use crate::crypto::{argon2_salt_ok, hash_password, hash_sha256, hmac_sha256, sha256_of};
use crate::data::{ChallengeData, HmacData};
use crate::errors::Error;
use crate::password::Password;
use crate::server_auth::client_response;

verus! {

/// Answers a challenge: hash the password with the salt the server sent,
/// then prove knowledge of that hash with an HMAC over the challenge.
/// Fails only when the server sent a salt the hasher refuses.
pub fn client_hmac_response(password: &Password, challenge: &ChallengeData) -> (r: Result<
    HmacData,
    Error,
>)
    ensures
        r matches Ok(h) ==> h.hmac@ == client_response(
            password@,
            challenge.salt@,
            challenge.challenge@,
        ),
        argon2_salt_ok(challenge.salt@) ==> r is Ok,
        r is Err ==> (r matches Err(e) && e is AuthFailed),
{
    match hash_password(password.as_str(), challenge.salt.as_str()) {
        Ok(hash) => {
            match hmac_sha256(challenge.challenge.as_slice(), hash.as_str()) {
                Ok(hmac) => Ok(HmacData { hmac }),
                Err(_) => {
                    proof {
                        assert(false);
                    }
                    Err(Error::AuthFailed)
                },
            }
        },
        Err(_) => Err(Error::AuthFailed),
    }
}

/// The digest of the challenge that the client hands the hardware key to
/// sign for the second factor.
pub fn challenge_digest(challenge: &ChallengeData) -> (r: Vec<u8>)
    ensures
        r@ == sha256_of(challenge.challenge@),
{
    hash_sha256(challenge.challenge.as_slice())
}

} // verus!
