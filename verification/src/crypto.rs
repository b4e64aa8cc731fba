//! Cryptographic primitives.
//!
//! Hashing, HMAC, signature verification and randomness come from outside
//! crates.  Each outside call sits behind a trusted wrapper whose contract
//! either names the deterministic result (`argon2_of`, `hmac256_of`,
//! `sha256_of`, `p256_verify_ok`) or, for random values, states only what
//! holds of every outcome.  The constant-time equality checks used for all
//! secret-derived comparisons are verified here.

use vstd::prelude::*;
use vstd::string::StrSliceExecFns;
use argon2::password_hash::rand_core::OsRng;
use argon2::password_hash::{PasswordHasher, SaltString};
use ecdsa::signature::Verifier;

verus! {

/// The PHC string that argon2 password hashing with default parameters
/// produces; a function of the password and the salt alone.
pub uninterp spec fn argon2_of(password: Seq<char>, salt: Seq<char>) -> Seq<char>;

/// The HMAC-SHA-256 tag over `input` keyed with the bytes of `key`;
/// a function of its arguments alone.
pub uninterp spec fn hmac256_of(input: Seq<u8>, key: Seq<char>) -> Seq<u8>;

/// The SHA-256 digest of `input`; a function of its argument alone.
pub uninterp spec fn sha256_of(input: Seq<u8>) -> Seq<u8>;

/// Whether `signature` is a valid DER-encoded ECDSA P-256 signature over
/// `message` under the SEC1-encoded public key `public_key`; a function of
/// its arguments alone.
pub uninterp spec fn p256_verify_ok(
    public_key: Seq<u8>,
    message: Seq<u8>,
    signature: Seq<u8>,
) -> bool;

/// Whether the password hasher accepts `salt` as a salt string.  Every
/// salt that [`generate_salt`] returns satisfies this.
pub uninterp spec fn argon2_salt_ok(salt: Seq<char>) -> bool;

/// Relies on argon2's `PasswordHasher::hash_password` with default
/// parameters: the PHC string produced depends on the password and the
/// salt alone, and hashing succeeds for every salt the hasher accepts
/// when the password is below argon2's length limit.
#[verifier::external_body]
pub fn hash_password(s: &str, salt: &str) -> (r: Result<String, String>)
    ensures
        r matches Ok(h) ==> h@ == argon2_of(s@, salt@),
        argon2_salt_ok(salt@) && s@.len() < 0x4000_0000 ==> r is Ok,
{
    let salt = match SaltString::from_b64(salt) {
        Ok(salt) => salt,
        Err(e) => return Err(e.to_string()),
    };
    match argon2::Argon2::default().hash_password(s.as_bytes(), &salt) {
        Ok(hash) => Ok(hash.to_string()),
        Err(e) => Err(e.to_string()),
    }
}

/// Relies on argon2's `SaltString::generate`: a fresh random 16-byte salt
/// in B64 form, which the password hasher accepts.
#[verifier::external_body]
pub fn generate_salt() -> (r: String)
    ensures
        argon2_salt_ok(r@),
{
    SaltString::generate(&mut OsRng).as_str().to_string()
}

/// Relies on rand's thread-local generator `fill_bytes`: 16 random bytes,
/// with nothing promised of their values.
#[verifier::external_body]
pub fn generate_random_128_bits() -> [u8; 16] {
    let mut dest: [u8; 16] = [0; 16];
    rand::RngCore::fill_bytes(&mut rand::thread_rng(), &mut dest);
    dest
}

/// Relies on hmac's `Hmac<Sha256>`: a key of any length is accepted, and
/// the tag depends on the input and the key alone.
#[verifier::external_body]
pub fn hmac_sha256(input: &[u8], key: &str) -> (r: Result<Vec<u8>, String>)
    ensures
        r is Ok,
        r matches Ok(h) ==> h@ == hmac256_of(input@, key@),
{
    let mut mac: hmac::Hmac<sha2::Sha256> = match hmac::Mac::new_from_slice(key.as_bytes()) {
        Ok(mac) => mac,
        Err(e) => return Err(e.to_string()),
    };
    hmac::Mac::update(&mut mac, input);
    Ok(hmac::Mac::finalize(mac).into_bytes()[..].to_vec())
}

/// Relies on sha2's `Sha256`: the digest depends on the input alone.
#[verifier::external_body]
pub fn hash_sha256(input: &[u8]) -> (r: Vec<u8>)
    ensures
        r@ == sha256_of(input@),
{
    let mut hasher = <sha2::Sha256 as sha2::Digest>::new();
    sha2::Digest::update(&mut hasher, input);
    sha2::Digest::finalize(hasher)[..].to_vec()
}

/// Relies on p256's `EncodedPoint::from_bytes`, `VerifyingKey::
/// from_encoded_point`, `Signature::from_der` and ecdsa's `Verifier::
/// verify`: whether the check passes depends on the key, message and
/// signature bytes alone; malformed keys or signatures never pass.
#[verifier::external_body]
pub fn verify_p256_signature(public_key: &[u8], message: &[u8], signature: &[u8]) -> (r: bool)
    ensures
        r == p256_verify_ok(public_key@, message@, signature@),
{
    let point = match p256::EncodedPoint::from_bytes(public_key) {
        Ok(point) => point,
        Err(_) => return false,
    };
    let key = match p256::ecdsa::VerifyingKey::from_encoded_point(&point) {
        Ok(key) => key,
        Err(_) => return false,
    };
    let sig = match p256::ecdsa::Signature::from_der(signature) {
        Ok(sig) => sig,
        Err(_) => return false,
    };
    key.verify(message, &sig).is_ok()
}

/// Holds of the hyphenated form of a UUID: 36 characters, hyphens at
/// positions 8, 13, 18 and 23, lowercase hexadecimal digits elsewhere.
pub open spec fn is_uuid_text(s: Seq<char>) -> bool {
    &&& s.len() == 36
    &&& forall|i: int|
        0 <= i < 36 ==> if i == 8 || i == 13 || i == 18 || i == 23 {
            s[i] == '-'
        } else {
            ('0' <= s[i] && s[i] <= '9') || ('a' <= s[i] && s[i] <= 'f')
        }
}

/// Relies on uuid's `Uuid::new_v4` and its hyphenated formatting: a random
/// version-4 UUID rendered as 36 lowercase hexadecimal characters with
/// hyphens at positions 8, 13, 18 and 23; nothing more is promised of a
/// random value.
#[verifier::external_body]
pub fn generate_token() -> (r: String)
    ensures
        is_uuid_text(r@),
{
    uuid::Uuid::new_v4().as_hyphenated().to_string()
}

/// Byte-sequence equality without an early exit on the first mismatching
/// byte: every position contributes to the accumulator, so the running
/// time does not depend on where two equal-length inputs differ.
pub fn constant_time_eq(a: &[u8], b: &[u8]) -> (r: bool)
    ensures
        r == (a@ == b@),
{
    if a.len() != b.len() {
        proof {
            assert(a@ != b@);
        }
        return false;
    }
    let mut diff: u8 = 0;
    let mut i: usize = 0;
    while i < a.len()
        invariant
            i <= a@.len(),
            a@.len() == b@.len(),
            (diff == 0) <==> (forall|j: int| 0 <= j < i ==> a@[j] == b@[j]),
        decreases a@.len() - i,
    {
        let x = a[i] ^ b[i];
        proof {
            let d = diff;
            assert((d | x) == 0 <==> (d == 0 && x == 0)) by (bit_vector);
            let ai = a@[i as int];
            let bi = b@[i as int];
            assert(x == (ai ^ bi));
            assert((ai ^ bi) == 0 <==> ai == bi) by (bit_vector);
        }
        diff = diff | x;
        i = i + 1;
    }
    if diff == 0 {
        proof {
            assert(a@ =~= b@);
        }
        true
    } else {
        false
    }
}

/// Constant-time equality of two strings, compared through their UTF-8
/// bytes; equal byte encodings decode to equal character sequences.
pub fn constant_time_str_eq(a: &str, b: &str) -> (r: bool)
    ensures
        r == (a@ == b@),
{
    let ab = a.as_bytes_vec();
    let bb = b.as_bytes_vec();
    let r = constant_time_eq(ab.as_slice(), bb.as_slice());
    proof {
        vstd::utf8::encode_utf8_decode_utf8(a@);
        vstd::utf8::encode_utf8_decode_utf8(b@);
    }
    r
}

} // verus!
