//! Properties that hold across the flows, stated and proved once.

use vstd::prelude::*;
use crate::crypto::argon2_of;
use crate::data::{ChallengeData, ServerMessage2FA};
use crate::database::Database;
use crate::errors::auth_failed_text;
use crate::server_auth::{client_response, register_allowed, AuthSession};
use crate::user::UserView;

verus! {

/// Registration never overwrites: once a record is stored under an
/// email, a further registration attempt for that email is refused.
pub proof fn lemma_reregistration_refused(db: Database, u: UserView, email: Seq<char>)
    requires
        db.spec_get(email) == Some(u),
    ensures
        !register_allowed(db, email),
{
}

/// A client that knows the right password passes the password check:
/// when the stored hash was derived from that password and the salt the
/// server sent, the server's expected HMAC over the issued challenge is
/// exactly the client's response.
pub proof fn lemma_correct_password_accepted(
    session: AuthSession,
    chal: ChallengeData,
    password: Seq<char>,
)
    requires
        session.found,
        chal.salt@ == session.user@.salt,
        chal.challenge@ == session.challenge@,
        session.user@.hash_password == argon2_of(password, session.user@.salt),
    ensures
        session.accepts(client_response(password, chal.salt@, chal.challenge@)),
{
}

/// A wrong password and an unknown email are indistinguishable: the
/// refusal a failed password check produces carries the same text, the
/// same success flag and the same second-factor flag in both cases.
pub proof fn lemma_failure_indistinguishable(m1: ServerMessage2FA, m2: ServerMessage2FA)
    requires
        !m1.success && !m1.two_f_a && m1.message@ == auth_failed_text(),
        !m2.success && !m2.two_f_a && m2.message@ == auth_failed_text(),
    ensures
        m1.message@ == m2.message@,
        m1.success == m2.success,
        m1.two_f_a == m2.two_f_a,
{
}

/// After a reset stores the updated record, the password check accepts
/// the response computed from the new password against a session opened
/// on that record.
pub proof fn lemma_reset_new_password_accepted(
    updated: UserView,
    session: AuthSession,
    chal: ChallengeData,
    new_password: Seq<char>,
)
    requires
        updated.hash_password == argon2_of(new_password, updated.salt),
        session.found,
        session.user@ == updated,
        chal.salt@ == updated.salt,
        chal.challenge@ == session.challenge@,
    ensures
        session.accepts(client_response(new_password, chal.salt@, chal.challenge@)),
{
}

/// Registrations of distinct emails do not disturb each other: after two
/// stores under distinct keys, both records are retrievable.
pub proof fn lemma_distinct_registrations_retrievable(
    db1: Database,
    db2: Database,
    u1: UserView,
    u2: UserView,
)
    requires
        db1.spec_get(u1.email) == Some(u1),
        db2.spec_get(u2.email) == Some(u2),
        forall|e: Seq<char>| e != u2.email ==> db2.spec_get(e) == db1.spec_get(e),
        u1.email != u2.email,
    ensures
        db2.spec_get(u1.email) == Some(u1),
        db2.spec_get(u2.email) == Some(u2),
{
}

} // verus!
