//! The validators on concrete vectors.

use twofa::email::Email;
use twofa::password::Password;
use twofa::pin::Pin;
use twofa::token::Token;

#[test]
fn email_accepts_plain_addresses() {
    assert!(Email::from_str("alice@example.com").is_ok());
    assert!(Email::from_str("a@b.co").is_ok());
    assert!(Email::from_str("first.last@sub.domain.org").is_ok());
    assert!(Email::from_str("user+tag@mail-host.example.com").is_ok());
}

#[test]
fn email_rejects_malformed_addresses() {
    assert!(Email::from_str("").is_err());
    assert!(Email::from_str("alice").is_err());
    assert!(Email::from_str("@example.com").is_err());
    assert!(Email::from_str("alice@").is_err());
    assert!(Email::from_str("alice@localhost").is_err());
    assert!(Email::from_str("alice@@example.com").is_err());
    assert!(Email::from_str(".alice@example.com").is_err());
    assert!(Email::from_str("alice.@example.com").is_err());
    assert!(Email::from_str("ali..ce@example.com").is_err());
    assert!(Email::from_str("alice@-example.com").is_err());
    assert!(Email::from_str("alice@example-.com").is_err());
    assert!(Email::from_str("alice@example..com").is_err());
    assert!(Email::from_str("Alice@Example.com").is_err());
}

#[test]
fn email_round_trips_its_text() {
    let e = Email::from_str("alice@example.com").unwrap();
    assert_eq!(e.as_str(), "alice@example.com");
}

#[test]
fn email_equality_is_by_text() {
    let a = Email::from_str("alice@example.com").unwrap();
    let b = Email::from_str("alice@example.com").unwrap();
    let c = Email::from_str("bob@example.com").unwrap();
    assert!(a == b);
    assert!(a != c);
}

#[test]
fn password_accepts_the_rule() {
    assert!(Password::from_str("P@ssw0rd1").is_ok());
    assert!(Password::from_str("12*#abCD").is_ok());
    assert!(Password::from_str("A1a# with spaces ok").is_ok());
}

#[test]
fn password_rejects_missing_classes_and_bad_lengths() {
    // Too short and too long.
    assert!(Password::from_str("A1a#bcd").is_err());
    let long = format!("A1a#{}", "x".repeat(61));
    assert_eq!(long.chars().count(), 65);
    assert!(Password::from_str(&long).is_err());
    // Each required class missing in turn.
    assert!(Password::from_str("p@ssw0rd1").is_err());
    assert!(Password::from_str("P@SSW0RD1").is_err());
    assert!(Password::from_str("P@sswOrdx").is_err());
    assert!(Password::from_str("Passw0rd1").is_err());
    // Newlines are refused.
    assert!(Password::from_str("P@ssw0rd1\n").is_err());
}

#[test]
fn password_round_trips_its_text() {
    let p = Password::from_str("P@ssw0rd1").unwrap();
    assert_eq!(p.as_str(), "P@ssw0rd1");
}

#[test]
fn pin_accepts_and_rejects() {
    assert!(Pin::from_str("123456").is_ok());
    assert!(Pin::from_str("abcDEF12").is_ok());
    assert!(Pin::from_str("12345").is_err());
    assert!(Pin::from_str("123456789").is_err());
    assert!(Pin::from_str("12345!").is_err());
    assert!(Pin::from_str("").is_err());
}

#[test]
fn token_accepts_uuid_shapes() {
    assert!(Token::from_str("123e4567-e89b-12d3-a456-426614174000").is_ok());
    assert!(Token::from_str("ABCDEF01-2345-6789-abcd-ef0123456789").is_ok());
}

#[test]
fn token_rejects_deviations() {
    assert!(Token::from_str("").is_err());
    assert!(Token::from_str("123e4567e89b12d3a456426614174000").is_err());
    assert!(Token::from_str("123e4567-e89b-12d3-a456-42661417400").is_err());
    assert!(Token::from_str("123e4567-e89b-12d3-a456-4266141740000").is_err());
    assert!(Token::from_str("123g4567-e89b-12d3-a456-426614174000").is_err());
    assert!(Token::from_str("123e4567+e89b-12d3-a456-426614174000").is_err());
}
