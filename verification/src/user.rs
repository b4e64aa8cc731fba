//! The stored identity record.

use vstd::prelude::*;
use crate::crypto::{argon2_salt_ok, generate_salt};
use crate::email::Email;

verus! {

/// The mathematical content of a stored record.
pub ghost struct UserView {
    pub email: Seq<char>,
    pub salt: Seq<char>,
    pub hash_password: Seq<char>,
    pub two_f_a: bool,
    pub yubikey: Seq<u8>,
}

/// A stored identity record: the unique email key, the per-user salt,
/// the salted password hash (never the raw password), whether the second
/// factor is required, and the public key enrolled at registration.
#[derive(Debug)]
pub struct User {
    pub email: Email,
    pub salt: String,
    pub hash_password: String,
    pub two_f_a: bool,
    pub yubikey: Vec<u8>,
}

impl View for User {
    type V = UserView;

    open spec fn view(&self) -> UserView {
        UserView {
            email: self.email@,
            salt: self.salt@,
            hash_password: self.hash_password@,
            two_f_a: self.two_f_a,
            yubikey: self.yubikey@,
        }
    }
}

/// Copies the bytes of a vector.
pub fn clone_bytes(v: &Vec<u8>) -> (r: Vec<u8>)
    ensures
        r@ == v@,
{
    let mut r: Vec<u8> = Vec::new();
    let mut i: usize = 0;
    while i < v.len()
        invariant
            i <= v@.len(),
            r@ == v@.subrange(0, i as int),
        decreases v@.len() - i,
    {
        r.push(v[i]);
        proof {
            assert(v@.subrange(0, i + 1 as int) =~= v@.subrange(0, i as int).push(v@[i as int]));
        }
        i = i + 1;
    }
    proof {
        assert(r@ =~= v@);
    }
    r
}

impl Clone for User {
    fn clone(&self) -> (r: Self)
        ensures
            r@ == self@,
    {
        User {
            email: self.email.clone(),
            salt: self.salt.clone(),
            hash_password: self.hash_password.clone(),
            two_f_a: self.two_f_a,
            yubikey: clone_bytes(&self.yubikey),
        }
    }
}

impl Default for User {
    /// The placeholder record synthesized for an unknown email, so that
    /// an authentication attempt proceeds through the same message shapes
    /// whether or not the email is registered.  Its salt is fresh and
    /// random on every call.
    fn default() -> (r: Self)
        ensures
            r@.email == "email@email.email"@,
            argon2_salt_ok(r@.salt),
            r@.hash_password == "hash_password"@,
            r@.two_f_a == true,
            r@.yubikey == Seq::<u8>::empty(),
    {
        User {
            email: Email::default(),
            salt: generate_salt(),
            hash_password: <String as vstd::string::StringExecFns>::from_str("hash_password"),
            two_f_a: true,
            yubikey: Vec::new(),
        }
    }
}

} // verus!
