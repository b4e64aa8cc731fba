//! The cryptographic primitives against known answers, and the
//! statistical uniqueness of the issued challenges.

use twofa::crypto::{
    constant_time_eq, constant_time_str_eq, generate_random_128_bits, generate_salt,
    generate_token, hash_password, hash_sha256, hmac_sha256,
};
use twofa::token::Token;

#[test]
fn hmac_sha256_matches_the_published_vector() {
    // HMAC-SHA-256 with key "Jefe" over "what do ya want for nothing?".
    let tag = hmac_sha256(b"what do ya want for nothing?", "Jefe").unwrap();
    let expected: [u8; 32] = [
        91, 220, 193, 70, 191, 96, 117, 78, 106, 4, 36, 38, 8, 149, 117, 199, 90, 0, 63, 8, 157,
        39, 57, 131, 157, 236, 88, 185, 100, 236, 56, 67,
    ];
    assert_eq!(tag.as_slice(), expected.as_slice());
}

#[test]
fn hash_sha256_matches_the_published_vector() {
    let digest = hash_sha256(b"abc");
    let expected: [u8; 32] = [
        186, 120, 22, 191, 143, 1, 207, 234, 65, 65, 64, 222, 93, 174, 34, 35, 176, 3, 97, 163,
        150, 23, 122, 156, 180, 16, 255, 97, 242, 0, 21, 173,
    ];
    assert_eq!(digest.as_slice(), expected.as_slice());
}

#[test]
fn hash_password_is_deterministic_in_password_and_salt() {
    let salt = generate_salt();
    let h1 = hash_password("P@ssw0rd1", &salt).unwrap();
    let h2 = hash_password("P@ssw0rd1", &salt).unwrap();
    assert_eq!(h1, h2);
    assert!(h1.starts_with("$argon2"));
    let other_salt = generate_salt();
    assert_ne!(salt, other_salt);
    let h3 = hash_password("P@ssw0rd1", &other_salt).unwrap();
    assert_ne!(h1, h3);
    let h4 = hash_password("Wr0ng#pass", &salt).unwrap();
    assert_ne!(h1, h4);
}

#[test]
fn hash_password_rejects_a_bad_salt() {
    assert!(hash_password("P@ssw0rd1", "no").is_err());
    assert!(hash_password("P@ssw0rd1", "spaces are not salt chars").is_err());
}

#[test]
fn generated_salts_are_accepted_salt_strings() {
    for _ in 0..32 {
        let salt = generate_salt();
        assert_eq!(salt.len(), 22);
        assert!(salt.chars().all(|c| c.is_ascii_alphanumeric() || c == '+' || c == '/'));
        assert!(hash_password("P@ssw0rd1", &salt).is_ok());
    }
}

#[test]
fn generated_tokens_fit_the_token_rule() {
    for _ in 0..64 {
        let token = generate_token();
        assert_eq!(token.len(), 36);
        assert!(Token::from_str(&token).is_ok());
    }
}

#[test]
fn challenges_are_statistically_unique() {
    // No two of 1000 issued challenges collide.
    let mut seen: Vec<[u8; 16]> = Vec::new();
    for _ in 0..1000 {
        let c = generate_random_128_bits();
        assert!(!seen.contains(&c));
        seen.push(c);
    }
}

#[test]
fn constant_time_eq_decides_byte_equality() {
    assert!(constant_time_eq(b"", b""));
    assert!(constant_time_eq(b"abc", b"abc"));
    assert!(!constant_time_eq(b"abc", b"abd"));
    assert!(!constant_time_eq(b"abc", b"ab"));
    assert!(!constant_time_eq(b"", b"x"));
    assert!(!constant_time_eq(b"\x00abc", b"\x01abc"));
}

#[test]
fn constant_time_str_eq_decides_string_equality() {
    assert!(constant_time_str_eq("", ""));
    assert!(constant_time_str_eq("token-abc", "token-abc"));
    assert!(!constant_time_str_eq("token-abc", "token-abd"));
    assert!(!constant_time_str_eq("token-abc", "token-ab"));
    assert!(constant_time_str_eq("héllo", "héllo"));
    assert!(!constant_time_str_eq("héllo", "hello"));
}
