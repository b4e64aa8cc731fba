//! The protocol flows end to end, with real hashing and real signatures.

use p256::ecdsa::signature::Signer;
use p256::ecdsa::{Signature, SigningKey};
use p256::elliptic_curve::sec1::ToEncodedPoint;

use twofa::client_auth::client_hmac_response;
use twofa::data::{
    ClientStringMessage, ClientVecMessage, EmailData, RegisterData, YubiKeyPubInfoData,
};
use twofa::database::Database;
use twofa::email::Email;
use twofa::password::Password;
use twofa::server_auth::{AuthOutcome, Authenticate};
use twofa::session::{ClientEvent, ServerOutput, ServerSession};
use twofa::user::User;

fn keypair(seed: u8) -> (SigningKey, Vec<u8>) {
    let sk = SigningKey::from_slice(&[seed; 32]).unwrap();
    let pk = sk.verifying_key().to_encoded_point(false).as_bytes().to_vec();
    (sk, pk)
}

fn sign_challenge(sk: &SigningKey, challenge: &[u8]) -> Vec<u8> {
    let sig: Signature = sk.sign(challenge);
    sig.to_der().as_bytes().to_vec()
}

fn register_data(email: &str, password: &str, pubkey: &[u8]) -> RegisterData {
    RegisterData {
        email: Email::from_str(email).unwrap(),
        password: Password::from_str(password).unwrap(),
        yubikey: pubkey.to_vec(),
    }
}

fn register(db: &mut Database, email: &str, password: &str, pubkey: &[u8]) -> Option<User> {
    let data = register_data(email, password, pubkey);
    let (_, allowed) = Authenticate::register_begin(db, &data);
    if !allowed {
        return None;
    }
    let yk = YubiKeyPubInfoData { yubikey: pubkey.to_vec() };
    let (user, msg) = Authenticate::register_finish(db, &data, &yk);
    assert!(msg.success);
    assert_eq!(msg.message, "User registered");
    Some(user)
}

/// Runs the password check for one attempt; returns the outcome and the
/// challenge bytes of the attempt.
fn password_round(db: &Database, email: &str, password: &str) -> (AuthOutcome, [u8; 16]) {
    let data = EmailData { email: Email::from_str(email).unwrap() };
    let (session, chal) = Authenticate::auth_begin(db, &data);
    let response = client_hmac_response(&Password::from_str(password).unwrap(), &chal).unwrap();
    let challenge = chal.challenge;
    (Authenticate::auth_check_hmac(&session, &response), challenge)
}

#[test]
fn register_then_reregister_same_email() {
    let mut db = Database::default();
    let (_, pk) = keypair(7);
    let user = register(&mut db, "alice@example.com", "P@ssw0rd1", &pk).unwrap();
    assert!(user.two_f_a);
    assert_eq!(user.yubikey, pk);
    // The record is retrievable at once.
    let stored = db.get(&Email::from_str("alice@example.com").unwrap()).unwrap();
    assert_eq!(stored.hash_password, user.hash_password);
    // Registering the same email again is refused.
    let data = register_data("alice@example.com", "0ther#Pass", &pk);
    let (msg, allowed) = Authenticate::register_begin(&db, &data);
    assert!(!allowed);
    assert!(!msg.success);
    assert_eq!(msg.message, "User already exists");
}

#[test]
fn authenticate_with_second_factor() {
    let mut db = Database::default();
    let (sk, pk) = keypair(9);
    register(&mut db, "alice@example.com", "P@ssw0rd1", &pk).unwrap();

    let data = EmailData { email: Email::from_str("alice@example.com").unwrap() };
    let (session, chal) = Authenticate::auth_begin(&db, &data);
    let response =
        client_hmac_response(&Password::from_str("P@ssw0rd1").unwrap(), &chal).unwrap();
    match Authenticate::auth_check_hmac(&session, &response) {
        AuthOutcome::SecondFactor(m) => {
            assert!(m.success);
            assert!(m.two_f_a);
            assert_eq!(m.message, "Proceeding with the 2FA");
        }
        _ => panic!("expected the second factor to be requested"),
    }
    // A valid signature over the issued challenge completes the login.
    let sig = sign_challenge(&sk, &chal.challenge);
    let (user, msg) = Authenticate::auth_second_factor(&session, &ClientVecMessage {
        message: sig,
    });
    assert!(msg.success);
    assert_eq!(msg.message, "Authentication success");
    assert_eq!(user.unwrap().email.as_str(), "alice@example.com");
}

#[test]
fn wrong_password_and_unknown_email_fail_identically() {
    let mut db = Database::default();
    let (_, pk) = keypair(11);
    register(&mut db, "alice@example.com", "P@ssw0rd1", &pk).unwrap();

    let (r1, _) = password_round(&db, "alice@example.com", "Wr0ng#pass");
    let (r2, _) = password_round(&db, "unknown@x.com", "P@ssw0rd1");
    let m1 = match r1 {
        AuthOutcome::Failure(m) => m,
        _ => panic!("a wrong password must fail"),
    };
    let m2 = match r2 {
        AuthOutcome::Failure(m) => m,
        _ => panic!("an unknown email must fail"),
    };
    // One identical response class for both causes.
    assert_eq!(m1.message, m2.message);
    assert_eq!(m1.success, m2.success);
    assert_eq!(m1.two_f_a, m2.two_f_a);
    assert_eq!(m1.message, "Authentication failed");
    assert!(!m1.success);
}

#[test]
fn correct_password_without_second_factor_succeeds() {
    let mut db = Database::default();
    let (_, pk) = keypair(13);
    let mut user = register(&mut db, "alice@example.com", "P@ssw0rd1", &pk).unwrap();
    // Turn the second factor off first.
    twofa::server_action::Action::switch_2fa(&mut user, &mut db);
    let (outcome, _) = password_round(&db, "alice@example.com", "P@ssw0rd1");
    match outcome {
        AuthOutcome::Success(u, m) => {
            assert!(m.success);
            assert!(!m.two_f_a);
            assert_eq!(m.message, "Authentication success");
            assert_eq!(u.email.as_str(), "alice@example.com");
        }
        _ => panic!("expected a direct success"),
    }
}

#[test]
fn flipping_any_signature_bit_fails_verification() {
    let (sk, pk) = keypair(17);
    let challenge: [u8; 16] = [42; 16];
    let sig = sign_challenge(&sk, &challenge);
    assert!(Authenticate::verify_yubikey_challenge(&pk, &sig, &challenge).is_ok());
    for i in 0..sig.len() * 8 {
        let mut flipped = sig.clone();
        flipped[i / 8] ^= 1 << (i % 8);
        assert!(
            Authenticate::verify_yubikey_challenge(&pk, &flipped, &challenge).is_err(),
            "a flipped bit must not verify"
        );
    }
}

#[test]
fn distinct_registrations_all_retrievable() {
    let mut db = Database::default();
    let (_, pk) = keypair(19);
    let emails = [
        "a@example.com",
        "b@example.com",
        "c@example.com",
        "d@example.com",
        "e@example.com",
    ];
    for email in emails.iter() {
        assert!(register(&mut db, email, "P@ssw0rd1", &pk).is_some());
    }
    for email in emails.iter() {
        let stored = db.get(&Email::from_str(email).unwrap());
        assert!(stored.is_some());
        assert_eq!(stored.unwrap().email.as_str(), *email);
    }
}

#[test]
fn same_email_registrations_one_success() {
    let mut db = Database::default();
    let (_, pk) = keypair(23);
    let mut successes = 0;
    let mut conflicts = 0;
    for _ in 0..5 {
        match register(&mut db, "race@example.com", "P@ssw0rd1", &pk) {
            Some(_) => successes += 1,
            None => conflicts += 1,
        }
    }
    assert_eq!(successes, 1);
    assert_eq!(conflicts, 4);
}

#[test]
fn toggling_second_factor_twice_restores_it() {
    let mut db = Database::default();
    let (_, pk) = keypair(29);
    let mut user = register(&mut db, "alice@example.com", "P@ssw0rd1", &pk).unwrap();
    let original = user.two_f_a;
    let r1 = twofa::server_action::Action::switch_2fa(&mut user, &mut db);
    assert_eq!(r1.two_f_a, !original);
    let r2 = twofa::server_action::Action::switch_2fa(&mut user, &mut db);
    assert_eq!(r2.two_f_a, original);
    assert_eq!(user.two_f_a, original);
    let stored = db.get(&Email::from_str("alice@example.com").unwrap()).unwrap();
    assert_eq!(stored.two_f_a, original);
}

fn expect_message(out: &ServerOutput) -> (&str, bool) {
    match out {
        ServerOutput::Message(m) => (m.message.as_str(), m.success),
        _ => panic!("expected a plain message"),
    }
}

/// Drives one complete reset over the dispatcher, answering with
/// `token_of` applied to the issued token, and returns whether the reset
/// reached the new password step.
fn run_reset(
    db: &mut Database,
    email: &str,
    sk: &SigningKey,
    token_of: impl Fn(&str) -> String,
    new_password: &str,
) -> bool {
    let mut session = ServerSession::new();
    let (s, outs) = session.step(db, ClientEvent::Command(Authenticate::Reset));
    assert!(outs.is_empty());
    session = s;
    let (s, outs) = session.step(
        db,
        ClientEvent::Email(EmailData { email: Email::from_str(email).unwrap() }),
    );
    session = s;
    assert_eq!(outs.len(), 2);
    assert_eq!(expect_message(&outs[0]), ("Proceeding with the 2FA", true));
    let challenge = match &outs[1] {
        ServerOutput::Challenge(c) => {
            assert_eq!(c.salt, "");
            c.challenge
        }
        _ => panic!("expected a challenge"),
    };
    let sig = sign_challenge(sk, &challenge);
    let (s, outs) = session.step(db, ClientEvent::Signature(ClientVecMessage { message: sig }));
    session = s;
    assert_eq!(outs.len(), 2);
    assert_eq!(expect_message(&outs[0]), ("An email was sent to your address", true));
    let body = match &outs[1] {
        ServerOutput::Mail(mail) => {
            assert_eq!(mail.to, email);
            assert_eq!(mail.subject, "Reset your password");
            mail.body.clone()
        }
        _ => panic!("expected a mail delivery"),
    };
    let prefix = "You can reset your password with the provided token ";
    assert!(body.starts_with(prefix));
    let token = &body[prefix.len()..];
    assert_eq!(token.len(), 36);
    let (s, outs) = session.step(
        db,
        ClientEvent::Text(ClientStringMessage { message: token_of(token) }),
    );
    session = s;
    assert_eq!(outs.len(), 1);
    let (text, ok) = expect_message(&outs[0]);
    if !ok {
        assert_eq!(text, "Wrong UUID");
        return false;
    }
    assert_eq!(text, "Correct UUID");
    let (s, outs) = session.step(
        db,
        ClientEvent::Text(ClientStringMessage { message: new_password.to_string() }),
    );
    assert!(outs.is_empty());
    match s {
        ServerSession::LoggedIn(u) => assert_eq!(u.email.as_str(), email),
        _ => panic!("a completed reset ends logged in"),
    }
    true
}

#[test]
fn reset_token_must_match_exactly() {
    let mut db = Database::default();
    let (sk, pk) = keypair(31);
    register(&mut db, "alice@example.com", "P@ssw0rd1", &pk).unwrap();
    // Any one-character deviation is refused.
    let deviated = run_reset(&mut db, "alice@example.com", &sk, |t| {
        let mut s: Vec<char> = t.chars().collect();
        s[0] = if s[0] == '0' { '1' } else { '0' };
        s.into_iter().collect()
    }, "N3w#passw0rd");
    assert!(!deviated);
    // The old password still authenticates: the aborted reset changed
    // nothing.
    let (outcome, _) = password_round(&db, "alice@example.com", "P@ssw0rd1");
    assert!(matches!(outcome, AuthOutcome::SecondFactor(_)));
}

#[test]
fn reset_replaces_the_password() {
    let mut db = Database::default();
    let (sk, pk) = keypair(37);
    register(&mut db, "alice@example.com", "P@ssw0rd1", &pk).unwrap();
    let done = run_reset(
        &mut db,
        "alice@example.com",
        &sk,
        |t| t.to_string(),
        "N3w#passw0rd",
    );
    assert!(done);
    // The old password no longer authenticates, and the new one does.
    let (old_outcome, _) = password_round(&db, "alice@example.com", "P@ssw0rd1");
    assert!(matches!(old_outcome, AuthOutcome::Failure(_)));
    let (new_outcome, _) = password_round(&db, "alice@example.com", "N3w#passw0rd");
    assert!(matches!(new_outcome, AuthOutcome::SecondFactor(_)));
}

#[test]
fn reset_of_unknown_email_is_refused() {
    let mut db = Database::default();
    let session = ServerSession::new();
    let (session, _) = session.step(&mut db, ClientEvent::Command(Authenticate::Reset));
    let (session, outs) = session.step(
        &mut db,
        ClientEvent::Email(EmailData { email: Email::from_str("nobody@x.com").unwrap() }),
    );
    assert_eq!(outs.len(), 1);
    assert_eq!(expect_message(&outs[0]), ("Invalid email", false));
    assert!(matches!(session, ServerSession::AwaitCommand));
}

#[test]
fn wrong_payload_type_closes_the_session() {
    let mut db = Database::default();
    let session = ServerSession::new();
    // A session awaiting a command receives a text payload instead.
    let (session, outs) = session.step(
        &mut db,
        ClientEvent::Text(ClientStringMessage { message: "hello".to_string() }),
    );
    assert!(outs.is_empty());
    assert!(matches!(session, ServerSession::Closed));
    // A closed session stays closed.
    let (session, outs) =
        session.step(&mut db, ClientEvent::Command(Authenticate::Authenticate));
    assert!(outs.is_empty());
    assert!(matches!(session, ServerSession::Closed));
}

#[test]
fn exit_command_closes_the_session() {
    let mut db = Database::default();
    let session = ServerSession::new();
    let (session, outs) = session.step(&mut db, ClientEvent::Command(Authenticate::Exit));
    assert!(outs.is_empty());
    assert!(matches!(session, ServerSession::Closed));
}
