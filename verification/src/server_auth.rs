//! The server side of the authentication protocol.
//!
//! Each flow is a sequence of rounds; the transport hands a round's
//! received payload to the matching step function and sends what it
//! returns.  The steps hold the flow's cryptographic state in explicit
//! session values, never in the store, and only the final fully-validated
//! step of a flow writes a record.

use vstd::prelude::*;
use vstd::string::StringExecFns;
use crate::crypto::{
    argon2_of, argon2_salt_ok, generate_random_128_bits, generate_salt, generate_token,
    hash_password, hmac_sha256, hmac256_of, is_uuid_text, p256_verify_ok, verify_p256_signature,
    constant_time_eq, constant_time_str_eq,
};
use crate::data::{
    ChallengeData, ClientStringMessage, ClientVecMessage, EmailData, HmacData, MailRequest,
    RegisterData, ServerMessage, ServerMessage2FA, YubiKeyPubInfoData,
};
use crate::database::Database;
use crate::errors::{
    auth_failed_text, invalid_email_text, two_fa_failed_text, user_already_exist_text,
    uuid_failed_text, Error,
};
use crate::messages::{
    auth_success_text, auth_to_2fa_text, email_message_text, email_sent_text, email_subject_text,
    user_registered_text, uuid_success_text, yubikey_pub_info_text, Messages,
};
use crate::user::{clone_bytes, User};

verus! {

/// The command a client opens an exchange with.
#[derive(Clone, Copy, Debug)]
pub enum Authenticate {
    Authenticate,
    Register,
    Reset,
    Exit,
}

/// The in-flight state of one authentication attempt: whether the email
/// was found, the record checked against (a synthesized placeholder when
/// it was not), and the challenge issued for this attempt.
pub struct AuthSession {
    pub found: bool,
    pub user: User,
    pub challenge: [u8; 16],
}

impl AuthSession {
    /// The proof the server accepts: the email had a record, and the
    /// HMAC is the one keyed with the stored hash over this session's
    /// challenge.
    pub open spec fn accepts(&self, hmac: Seq<u8>) -> bool {
        self.found && hmac == hmac256_of(self.challenge@, self.user@.hash_password)
    }
}

/// The server's answer to the password proof.
pub enum AuthOutcome {
    /// Wrong proof or unknown email: one identical refusal for both.
    Failure(ServerMessage2FA),
    /// The password proof passed and the account requires the second
    /// factor over this same challenge.
    SecondFactor(ServerMessage2FA),
    /// The password proof passed and no second factor is required.
    Success(User, ServerMessage2FA),
}

/// The in-flight state of one reset attempt.
pub struct ResetSession {
    pub user: User,
    pub challenge: [u8; 16],
}

/// The server's answer to a reset request.
pub enum ResetStart {
    /// The email has no record: the reset cannot proceed.
    Refused(ServerMessage),
    /// A fresh challenge for the second factor, which must pass before
    /// anything else happens.
    SecondFactor(ResetSession, ServerMessage, ChallengeData),
}

/// When a registration may proceed: nothing is stored under the email.
pub open spec fn register_allowed(db: Database, email: Seq<char>) -> bool {
    db.spec_get(email) is None
}

/// What a client that knows `password` answers to a challenge: the HMAC
/// over the challenge keyed with the hash derived from the password and
/// the challenge's salt.
pub open spec fn client_response(password: Seq<char>, salt: Seq<char>, challenge: Seq<u8>) -> Seq<
    u8,
> {
    hmac256_of(challenge, argon2_of(password, salt))
}

impl Authenticate {
    /// First registration round: refuse an email that already has a
    /// record — registration never overwrites — else announce that
    /// enrollment proceeds.
    pub fn register_begin(db: &Database, data: &RegisterData) -> (r: (ServerMessage, bool))
        ensures
            r.1 == register_allowed(*db, data.email@),
            r.1 ==> r.0.success && r.0.message@ == yubikey_pub_info_text(),
            !r.1 ==> !r.0.success && r.0.message@ == user_already_exist_text(),
    {
        match db.get(&data.email) {
            Some(_) => (
                ServerMessage { message: Error::UserAlreadyExist.to_string(), success: false },
                false,
            ),
            None => (
                ServerMessage { message: Messages::YubiKeyPubInfo.to_string(), success: true },
                true,
            ),
        }
    }

    /// Second registration round: derive a fresh salted hash, build the
    /// record with the enrolled public key and the second factor on,
    /// persist it, and only then confirm — a confirmed registration is
    /// always durable.
    pub fn register_finish(db: &mut Database, data: &RegisterData, yk: &YubiKeyPubInfoData) -> (r:
        (User, ServerMessage))
        requires
            old(db).wf(),
        ensures
            final(db).wf(),
            r.0@.email == data.email@,
            argon2_salt_ok(r.0@.salt),
            r.0@.hash_password == argon2_of(data.password@, r.0@.salt),
            r.0@.two_f_a == true,
            r.0@.yubikey == yk.yubikey@,
            final(db).spec_get(data.email@) == Some(r.0@),
            forall|e: Seq<char>|
                e != data.email@ ==> final(db).spec_get(e) == old(db).spec_get(e),
            r.1.success && r.1.message@ == user_registered_text(),
    {
        let salt = generate_salt();
        proof {
            use_type_invariant(&data.password);
        }
        let hash = match hash_password(data.password.as_str(), salt.as_str()) {
            Ok(h) => h,
            Err(_) => {
                proof {
                    assert(false);
                }
                String::new()
            },
        };
        let user = User {
            email: data.email.clone(),
            salt,
            hash_password: hash,
            two_f_a: true,
            yubikey: clone_bytes(&yk.yubikey),
        };
        db.insert(&user);
        (user, ServerMessage { message: Messages::UserRegistered.to_string(), success: true })
    }

    /// Opens an authentication attempt.  The email is looked up, but the
    /// reply has the same shape either way: when the email is unknown a
    /// placeholder record is synthesized, so that neither the message
    /// sequence nor its content reveals whether the email is registered.
    pub fn auth_begin(db: &Database, data: &EmailData) -> (r: (AuthSession, ChallengeData))
        ensures
            r.0.found <==> db.spec_get(data.email@) is Some,
            r.0.found ==> Some(r.0.user@) == db.spec_get(data.email@),
            r.1.salt@ == r.0.user@.salt,
            r.1.challenge@ == r.0.challenge@,
    {
        let (found, user): (bool, User) = match db.get(&data.email) {
            Some(u) => (true, u),
            None => (false, User::default()),
        };
        let challenge = generate_random_128_bits();
        let chal = ChallengeData { salt: user.salt.clone(), challenge };
        (AuthSession { found, user, challenge }, chal)
    }

    /// Checks the client's password proof in constant time.  A wrong
    /// proof and an unknown email produce one identical refusal; a right
    /// proof either finishes the authentication or demands the second
    /// factor over this same challenge, as the account prescribes.
    pub fn auth_check_hmac(session: &AuthSession, data: &HmacData) -> (r: AuthOutcome)
        ensures
            !session.accepts(data.hmac@) ==> (r matches AuthOutcome::Failure(m) && !m.success
                && !m.two_f_a && m.message@ == auth_failed_text()),
            session.accepts(data.hmac@) && session.user.two_f_a ==> (r
                matches AuthOutcome::SecondFactor(m) && m.success && m.two_f_a && m.message@
                == auth_to_2fa_text()),
            session.accepts(data.hmac@) && !session.user.two_f_a ==> (r
                matches AuthOutcome::Success(u, m) && u@ == session.user@ && m.success
                && !m.two_f_a && m.message@ == auth_success_text()),
    {
        let expected = match hmac_sha256(
            session.challenge.as_slice(),
            session.user.hash_password.as_str(),
        ) {
            Ok(h) => h,
            Err(_) => {
                proof {
                    assert(false);
                }
                Vec::new()
            },
        };
        let ok = constant_time_eq(data.hmac.as_slice(), expected.as_slice());
        if !ok || !session.found {
            AuthOutcome::Failure(
                ServerMessage2FA {
                    message: Error::AuthFailed.to_string(),
                    success: false,
                    two_f_a: false,
                },
            )
        } else if session.user.two_f_a {
            AuthOutcome::SecondFactor(
                ServerMessage2FA {
                    message: Messages::AuthTo2FA.to_string(),
                    success: true,
                    two_f_a: true,
                },
            )
        } else {
            AuthOutcome::Success(
                session.user.clone(),
                ServerMessage2FA {
                    message: Messages::AuthSuccess.to_string(),
                    success: true,
                    two_f_a: false,
                },
            )
        }
    }

    /// Verifies a second-factor signature over a challenge with the
    /// enrolled public key — never with one supplied at verification
    /// time.
    pub fn verify_yubikey_challenge(yubikey: &Vec<u8>, message: &Vec<u8>, challenge: &[u8]) -> (r:
        Result<(), Error>)
        ensures
            r is Ok <==> p256_verify_ok(yubikey@, challenge@, message@),
            r is Err ==> (r matches Err(e) && e is TwoFAFailed),
    {
        if verify_p256_signature(yubikey.as_slice(), challenge, message.as_slice()) {
            Ok(())
        } else {
            Err(Error::TwoFAFailed)
        }
    }

    /// Final authentication round: check the hardware signature over the
    /// challenge issued when this attempt began.
    pub fn auth_second_factor(session: &AuthSession, data: &ClientVecMessage) -> (r: (
        Option<User>,
        ServerMessage,
    ))
        ensures
            p256_verify_ok(session.user@.yubikey, session.challenge@, data.message@) ==> (r.0
                matches Some(u) && u@ == session.user@ && r.1.success && r.1.message@
                == auth_success_text()),
            !p256_verify_ok(session.user@.yubikey, session.challenge@, data.message@) ==> r.0
                is None && !r.1.success && r.1.message@ == two_fa_failed_text(),
    {
        match Self::verify_yubikey_challenge(
            &session.user.yubikey,
            &data.message,
            session.challenge.as_slice(),
        ) {
            Ok(_) => (
                Some(session.user.clone()),
                ServerMessage { message: Messages::AuthSuccess.to_string(), success: true },
            ),
            Err(_) => (
                None,
                ServerMessage { message: Error::TwoFAFailed.to_string(), success: false },
            ),
        }
    }

    /// Opens a reset attempt.  An unknown email refuses the flow — a
    /// reset reveals nothing before the second factor passes — and a
    /// known one gets a fresh challenge to sign.
    pub fn reset_begin(db: &Database, data: &EmailData) -> (r: ResetStart)
        ensures
            db.spec_get(data.email@) is None ==> (r matches ResetStart::Refused(m) && !m.success
                && m.message@ == invalid_email_text()),
            db.spec_get(data.email@) matches Some(u) ==> (r matches ResetStart::SecondFactor(
                session,
                m,
                chal,
            ) && session.user@ == u && m.success && m.message@ == auth_to_2fa_text()
                && chal.salt@ == Seq::<char>::empty() && chal.challenge@ == session.challenge@),
    {
        match db.get(&data.email) {
            None => ResetStart::Refused(
                ServerMessage { message: Error::InvalidEmail.to_string(), success: false },
            ),
            Some(user) => {
                let challenge = generate_random_128_bits();
                let chal = ChallengeData { salt: String::new(), challenge };
                ResetStart::SecondFactor(
                    ResetSession { user, challenge },
                    ServerMessage { message: Messages::AuthTo2FA.to_string(), success: true },
                    chal,
                )
            },
        }
    }

    /// Reset second-factor round: the signature must pass before any
    /// token is issued; failure aborts the whole reset.
    pub fn reset_second_factor(session: &ResetSession, data: &ClientVecMessage) -> (r: (
        bool,
        ServerMessage,
    ))
        ensures
            r.0 == p256_verify_ok(session.user@.yubikey, session.challenge@, data.message@),
            r.0 ==> r.1.success && r.1.message@ == email_sent_text(),
            !r.0 ==> !r.1.success && r.1.message@ == two_fa_failed_text(),
    {
        match Self::verify_yubikey_challenge(
            &session.user.yubikey,
            &data.message,
            session.challenge.as_slice(),
        ) {
            Ok(_) => (
                true,
                ServerMessage { message: Messages::EmailSent.to_string(), success: true },
            ),
            Err(_) => (
                false,
                ServerMessage { message: Error::TwoFAFailed.to_string(), success: false },
            ),
        }
    }

    /// Issues the single-use reset token and the out-of-band delivery
    /// that carries it: a fixed subject and a fixed body template with
    /// the token appended, addressed to the account's email.
    pub fn reset_issue_token(session: &ResetSession) -> (r: (String, MailRequest))
        ensures
            is_uuid_text(r.0@),
            r.1.to@ == session.user@.email,
            r.1.subject@ == email_subject_text(),
            r.1.body@ == email_message_text() + " "@ + r.0@,
    {
        let token = generate_token();
        let mut body = Messages::EmailMessage.to_string();
        body.append(" ");
        body.append(token.as_str());
        let mail = MailRequest {
            to: <String as StringExecFns>::from_str(session.user.email.as_str()),
            subject: Messages::EmailSubject.to_string(),
            body,
        };
        (token, mail)
    }

    /// Compares the string the client returned against the issued token,
    /// in constant time; any deviation refuses the reset.
    pub fn reset_check_token(token: &String, data: &ClientStringMessage) -> (r: (
        bool,
        ServerMessage,
    ))
        ensures
            r.0 == (data.message@ == token@),
            r.0 ==> r.1.success && r.1.message@ == uuid_success_text(),
            !r.0 ==> !r.1.success && r.1.message@ == uuid_failed_text(),
    {
        if constant_time_str_eq(data.message.as_str(), token.as_str()) {
            (true, ServerMessage { message: Messages::UuidSuccess.to_string(), success: true })
        } else {
            (false, ServerMessage { message: Error::UuidFailed.to_string(), success: false })
        }
    }

    /// Final reset round: derive a fresh salted hash of the new password
    /// and persist the record with its identity, second-factor preference
    /// and enrolled key unchanged.
    pub fn reset_finish(db: &mut Database, user: &User, new_password: &ClientStringMessage) -> (r:
        User)
        requires
            old(db).wf(),
            new_password.message@.len() < 0x4000_0000,
        ensures
            final(db).wf(),
            r@.email == user@.email,
            r@.two_f_a == user@.two_f_a,
            r@.yubikey == user@.yubikey,
            argon2_salt_ok(r@.salt),
            r@.hash_password == argon2_of(new_password.message@, r@.salt),
            final(db).spec_get(user@.email) == Some(r@),
            forall|e: Seq<char>|
                e != user@.email ==> final(db).spec_get(e) == old(db).spec_get(e),
    {
        let salt = generate_salt();
        let hash = match hash_password(new_password.message.as_str(), salt.as_str()) {
            Ok(h) => h,
            Err(_) => {
                proof {
                    assert(false);
                }
                String::new()
            },
        };
        let updated = User {
            email: user.email.clone(),
            salt,
            hash_password: hash,
            two_f_a: user.two_f_a,
            yubikey: clone_bytes(&user.yubikey),
        };
        db.insert(&updated);
        updated
    }
}

} // verus!
