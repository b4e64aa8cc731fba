//! The per-connection dispatcher.
//!
//! One session serves one connection.  The transport reads a payload,
//! hands it to [`ServerSession::step`], sends the outputs back, performs
//! any requested mail delivery, and loops.  The session holds the flow's
//! state between rounds; a payload of the wrong type at any round closes
//! the session without touching the store.  Only the three designated
//! final writes — registration, reset, toggle — change the store at all.

use vstd::prelude::*;
use vstd::string::StrSliceExecFns;
use crate::crypto::{argon2_of, argon2_salt_ok, is_uuid_text, p256_verify_ok};
use crate::data::{
    ChallengeData, ClientStringMessage, ClientVecMessage, EmailData, HmacData, MailRequest,
    RegisterData, ServerMessage, ServerMessage2FA, Switch2FA, YubiKeyPubInfoData,
};
use crate::database::Database;
use crate::errors::{auth_failed_text, invalid_email_text, two_fa_failed_text,
    user_already_exist_text, uuid_failed_text};
use crate::messages::{
    auth_success_text, auth_to_2fa_text, email_message_text, email_sent_text, email_subject_text,
    user_registered_text, uuid_success_text, yubikey_pub_info_text,
};
use crate::server_action::{toggled, Action};
use crate::server_auth::{
    register_allowed, AuthOutcome, AuthSession, Authenticate, ResetSession, ResetStart,
};
use crate::user::User;

verus! {

/// A payload received from the client, tagged by type.
pub enum ClientEvent {
    Command(Authenticate),
    Register(RegisterData),
    YubiKeyInfo(YubiKeyPubInfoData),
    Email(EmailData),
    Hmac(HmacData),
    Signature(ClientVecMessage),
    Text(ClientStringMessage),
    Action(Action),
}

/// What the server sends, or asks the mail transport to deliver, after
/// one round.
pub enum ServerOutput {
    Message(ServerMessage),
    Message2FA(ServerMessage2FA),
    Challenge(ChallengeData),
    Switch(Switch2FA),
    Mail(MailRequest),
}

/// The dispatcher: which payload the session awaits, with the in-flight
/// flow state.  The dispatcher itself holds no cryptographic state
/// beyond the sessions it sequences.
pub enum ServerSession {
    AwaitCommand,
    AwaitRegisterData,
    AwaitRegisterKey(RegisterData),
    AwaitAuthEmail,
    AwaitHmac(AuthSession),
    AwaitAuthSignature(AuthSession),
    AwaitResetEmail,
    AwaitResetSignature(ResetSession),
    AwaitResetToken(ResetSession, String),
    AwaitNewPassword(ResetSession),
    LoggedIn(User),
    Closed,
}

/// The payload type each state expects; anything else aborts the
/// connection, so a client cannot skip a step.
pub open spec fn expects(state: ServerSession, event: ClientEvent) -> bool {
    match (state, event) {
        (ServerSession::AwaitCommand, ClientEvent::Command(_)) => true,
        (ServerSession::AwaitRegisterData, ClientEvent::Register(_)) => true,
        (ServerSession::AwaitRegisterKey(_), ClientEvent::YubiKeyInfo(_)) => true,
        (ServerSession::AwaitAuthEmail, ClientEvent::Email(_)) => true,
        (ServerSession::AwaitHmac(_), ClientEvent::Hmac(_)) => true,
        (ServerSession::AwaitAuthSignature(_), ClientEvent::Signature(_)) => true,
        (ServerSession::AwaitResetEmail, ClientEvent::Email(_)) => true,
        (ServerSession::AwaitResetSignature(_), ClientEvent::Signature(_)) => true,
        (ServerSession::AwaitResetToken(_, _), ClientEvent::Text(_)) => true,
        (ServerSession::AwaitNewPassword(_), ClientEvent::Text(_)) => true,
        (ServerSession::LoggedIn(_), ClientEvent::Action(_)) => true,
        _ => false,
    }
}

/// The store key a round is allowed to write, if any: the three
/// designated final writes.  Every other key reads back unchanged after
/// every round, so an aborted flow leaves no partial modification.
pub open spec fn write_key(state: ServerSession, event: ClientEvent) -> Option<Seq<char>> {
    match (state, event) {
        (ServerSession::AwaitRegisterKey(data), ClientEvent::YubiKeyInfo(_)) => Some(data.email@),
        (ServerSession::AwaitNewPassword(s), ClientEvent::Text(_)) => Some(s.user@.email),
        (ServerSession::LoggedIn(u), ClientEvent::Action(a)) => if a is Switch2FA {
            Some(u@.email)
        } else {
            None
        },
        _ => None,
    }
}

/// The transition relation of the dispatcher: how one received payload
/// moves the session, what it may write, and what goes back to the
/// client.
pub open spec fn step_spec(
    pre: ServerSession,
    event: ClientEvent,
    db0: Database,
    post: ServerSession,
    db1: Database,
    outs: Seq<ServerOutput>,
) -> bool {
    match (pre, event) {
        (ServerSession::AwaitCommand, ClientEvent::Command(cmd)) => {
            &&& outs.len() == 0
            &&& post == match cmd {
                Authenticate::Register => ServerSession::AwaitRegisterData,
                Authenticate::Authenticate => ServerSession::AwaitAuthEmail,
                Authenticate::Reset => ServerSession::AwaitResetEmail,
                Authenticate::Exit => ServerSession::Closed,
            }
        },
        (ServerSession::AwaitRegisterData, ClientEvent::Register(data)) => {
            &&& outs.len() == 1
            &&& if register_allowed(db0, data.email@) {
                &&& post == ServerSession::AwaitRegisterKey(data)
                &&& (outs[0] matches ServerOutput::Message(m) && m.success && m.message@
                    == yubikey_pub_info_text())
            } else {
                &&& post is AwaitCommand
                &&& (outs[0] matches ServerOutput::Message(m) && !m.success && m.message@
                    == user_already_exist_text())
            }
        },
        (ServerSession::AwaitRegisterKey(data), ClientEvent::YubiKeyInfo(yk)) => {
            &&& outs.len() == 1
            &&& (outs[0] matches ServerOutput::Message(m) && m.success && m.message@
                == user_registered_text())
            &&& (post matches ServerSession::LoggedIn(u) && u@.email == data.email@
                && argon2_salt_ok(u@.salt) && u@.hash_password == argon2_of(
                data.password@,
                u@.salt,
            ) && u@.two_f_a == true && u@.yubikey == yk.yubikey@ && db1.spec_get(data.email@)
                == Some(u@))
        },
        (ServerSession::AwaitAuthEmail, ClientEvent::Email(data)) => {
            &&& outs.len() == 1
            &&& (post matches ServerSession::AwaitHmac(s) && (outs[0]
                matches ServerOutput::Challenge(chal) && chal.salt@ == s.user@.salt
                && chal.challenge@ == s.challenge@) && (s.found <==> db0.spec_get(data.email@)
                is Some) && (s.found ==> Some(s.user@) == db0.spec_get(data.email@)))
        },
        (ServerSession::AwaitHmac(s), ClientEvent::Hmac(h)) => {
            &&& outs.len() == 1
            &&& if !s.accepts(h.hmac@) {
                &&& post is AwaitCommand
                &&& (outs[0] matches ServerOutput::Message2FA(m) && !m.success && !m.two_f_a
                    && m.message@ == auth_failed_text())
            } else if s.user.two_f_a {
                &&& post == ServerSession::AwaitAuthSignature(s)
                &&& (outs[0] matches ServerOutput::Message2FA(m) && m.success && m.two_f_a
                    && m.message@ == auth_to_2fa_text())
            } else {
                &&& (post matches ServerSession::LoggedIn(u) && u@ == s.user@)
                &&& (outs[0] matches ServerOutput::Message2FA(m) && m.success && !m.two_f_a
                    && m.message@ == auth_success_text())
            }
        },
        (ServerSession::AwaitAuthSignature(s), ClientEvent::Signature(sig)) => {
            &&& outs.len() == 1
            &&& if p256_verify_ok(s.user@.yubikey, s.challenge@, sig.message@) {
                &&& (post matches ServerSession::LoggedIn(u) && u@ == s.user@)
                &&& (outs[0] matches ServerOutput::Message(m) && m.success && m.message@
                    == auth_success_text())
            } else {
                &&& post is AwaitCommand
                &&& (outs[0] matches ServerOutput::Message(m) && !m.success && m.message@
                    == two_fa_failed_text())
            }
        },
        (ServerSession::AwaitResetEmail, ClientEvent::Email(data)) => {
            match db0.spec_get(data.email@) {
                None => {
                    &&& outs.len() == 1
                    &&& post is AwaitCommand
                    &&& (outs[0] matches ServerOutput::Message(m) && !m.success && m.message@
                        == invalid_email_text())
                },
                Some(u) => {
                    &&& outs.len() == 2
                    &&& (post matches ServerSession::AwaitResetSignature(s) && s.user@ == u
                        && (outs[1] matches ServerOutput::Challenge(chal) && chal.salt@
                        == Seq::<char>::empty() && chal.challenge@ == s.challenge@))
                    &&& (outs[0] matches ServerOutput::Message(m) && m.success && m.message@
                        == auth_to_2fa_text())
                },
            }
        },
        (ServerSession::AwaitResetSignature(s), ClientEvent::Signature(sig)) => {
            if p256_verify_ok(s.user@.yubikey, s.challenge@, sig.message@) {
                &&& outs.len() == 2
                &&& (outs[0] matches ServerOutput::Message(m) && m.success && m.message@
                    == email_sent_text())
                &&& (post matches ServerSession::AwaitResetToken(s2, token) && s2 == s
                    && is_uuid_text(token@) && (outs[1] matches ServerOutput::Mail(mail)
                    && mail.to@ == s.user@.email && mail.subject@ == email_subject_text()
                    && mail.body@ == email_message_text() + " "@ + token@))
            } else {
                &&& outs.len() == 1
                &&& post is AwaitCommand
                &&& (outs[0] matches ServerOutput::Message(m) && !m.success && m.message@
                    == two_fa_failed_text())
            }
        },
        (ServerSession::AwaitResetToken(s, token), ClientEvent::Text(t)) => {
            &&& outs.len() == 1
            &&& if t.message@ == token@ {
                &&& post == ServerSession::AwaitNewPassword(s)
                &&& (outs[0] matches ServerOutput::Message(m) && m.success && m.message@
                    == uuid_success_text())
            } else {
                &&& post is AwaitCommand
                &&& (outs[0] matches ServerOutput::Message(m) && !m.success && m.message@
                    == uuid_failed_text())
            }
        },
        (ServerSession::AwaitNewPassword(s), ClientEvent::Text(p)) => {
            if p.message@.len() < 0x4000_0000 {
                &&& outs.len() == 0
                &&& (post matches ServerSession::LoggedIn(u) && u@.email == s.user@.email
                    && u@.two_f_a == s.user@.two_f_a && u@.yubikey == s.user@.yubikey
                    && argon2_salt_ok(u@.salt) && u@.hash_password == argon2_of(
                    p.message@,
                    u@.salt,
                ) && db1.spec_get(s.user@.email) == Some(u@))
            } else {
                &&& outs.len() == 0
                &&& post is Closed
            }
        },
        (ServerSession::LoggedIn(u), ClientEvent::Action(a)) => {
            match a {
                Action::Switch2FA => {
                    &&& outs.len() == 1
                    &&& (post matches ServerSession::LoggedIn(u2) && u2@ == toggled(u@)
                        && db1.spec_get(u@.email) == Some(u2@) && (outs[0]
                        matches ServerOutput::Switch(m) && m.two_f_a == u2@.two_f_a))
                },
                Action::Logout => {
                    &&& outs.len() == 0
                    &&& post is AwaitCommand
                },
            }
        },
        _ => {
            &&& outs.len() == 0
            &&& post is Closed
        },
    }
}

impl ServerSession {
    /// A fresh session awaiting its first command.
    pub fn new() -> (r: Self)
        ensures
            r is AwaitCommand,
    {
        ServerSession::AwaitCommand
    }

    /// Serves one round: takes the received payload, returns the next
    /// session state and what to send or deliver.  A payload of a type
    /// the state does not expect closes the session; no round but the
    /// three designated final writes changes any stored record.
    pub fn step(self, db: &mut Database, event: ClientEvent) -> (r: (Self, Vec<ServerOutput>))
        requires
            old(db).wf(),
        ensures
            final(db).wf(),
            step_spec(self, event, *old(db), r.0, *final(db), r.1@),
            !expects(self, event) ==> r.0 is Closed && r.1@.len() == 0,
            forall|e: Seq<char>|
                (match write_key(self, event) {
                    Some(k) => e != k,
                    None => true,
                }) ==> final(db).spec_get(e) == old(db).spec_get(e),
    {
        match (self, event) {
            (ServerSession::AwaitCommand, ClientEvent::Command(cmd)) => {
                let next = match cmd {
                    Authenticate::Register => ServerSession::AwaitRegisterData,
                    Authenticate::Authenticate => ServerSession::AwaitAuthEmail,
                    Authenticate::Reset => ServerSession::AwaitResetEmail,
                    Authenticate::Exit => ServerSession::Closed,
                };
                (next, Vec::new())
            },
            (ServerSession::AwaitRegisterData, ClientEvent::Register(data)) => {
                let (msg, allowed) = Authenticate::register_begin(db, &data);
                let mut outs: Vec<ServerOutput> = Vec::new();
                outs.push(ServerOutput::Message(msg));
                if allowed {
                    (ServerSession::AwaitRegisterKey(data), outs)
                } else {
                    (ServerSession::AwaitCommand, outs)
                }
            },
            (ServerSession::AwaitRegisterKey(data), ClientEvent::YubiKeyInfo(yk)) => {
                let (user, msg) = Authenticate::register_finish(db, &data, &yk);
                let mut outs: Vec<ServerOutput> = Vec::new();
                outs.push(ServerOutput::Message(msg));
                (ServerSession::LoggedIn(user), outs)
            },
            (ServerSession::AwaitAuthEmail, ClientEvent::Email(data)) => {
                let (session, chal) = Authenticate::auth_begin(db, &data);
                let mut outs: Vec<ServerOutput> = Vec::new();
                outs.push(ServerOutput::Challenge(chal));
                (ServerSession::AwaitHmac(session), outs)
            },
            (ServerSession::AwaitHmac(session), ClientEvent::Hmac(h)) => {
                let mut outs: Vec<ServerOutput> = Vec::new();
                match Authenticate::auth_check_hmac(&session, &h) {
                    AuthOutcome::Failure(m) => {
                        outs.push(ServerOutput::Message2FA(m));
                        (ServerSession::AwaitCommand, outs)
                    },
                    AuthOutcome::SecondFactor(m) => {
                        outs.push(ServerOutput::Message2FA(m));
                        (ServerSession::AwaitAuthSignature(session), outs)
                    },
                    AuthOutcome::Success(u, m) => {
                        outs.push(ServerOutput::Message2FA(m));
                        (ServerSession::LoggedIn(u), outs)
                    },
                }
            },
            (ServerSession::AwaitAuthSignature(session), ClientEvent::Signature(sig)) => {
                let (user, msg) = Authenticate::auth_second_factor(&session, &sig);
                let mut outs: Vec<ServerOutput> = Vec::new();
                outs.push(ServerOutput::Message(msg));
                match user {
                    Some(u) => (ServerSession::LoggedIn(u), outs),
                    None => (ServerSession::AwaitCommand, outs),
                }
            },
            (ServerSession::AwaitResetEmail, ClientEvent::Email(data)) => {
                let mut outs: Vec<ServerOutput> = Vec::new();
                match Authenticate::reset_begin(db, &data) {
                    ResetStart::Refused(m) => {
                        outs.push(ServerOutput::Message(m));
                        (ServerSession::AwaitCommand, outs)
                    },
                    ResetStart::SecondFactor(session, m, chal) => {
                        outs.push(ServerOutput::Message(m));
                        outs.push(ServerOutput::Challenge(chal));
                        (ServerSession::AwaitResetSignature(session), outs)
                    },
                }
            },
            (ServerSession::AwaitResetSignature(session), ClientEvent::Signature(sig)) => {
                let (ok, msg) = Authenticate::reset_second_factor(&session, &sig);
                let mut outs: Vec<ServerOutput> = Vec::new();
                outs.push(ServerOutput::Message(msg));
                if ok {
                    let (token, mail) = Authenticate::reset_issue_token(&session);
                    outs.push(ServerOutput::Mail(mail));
                    (ServerSession::AwaitResetToken(session, token), outs)
                } else {
                    (ServerSession::AwaitCommand, outs)
                }
            },
            (ServerSession::AwaitResetToken(session, token), ClientEvent::Text(t)) => {
                let (ok, msg) = Authenticate::reset_check_token(&token, &t);
                let mut outs: Vec<ServerOutput> = Vec::new();
                outs.push(ServerOutput::Message(msg));
                if ok {
                    (ServerSession::AwaitNewPassword(session), outs)
                } else {
                    (ServerSession::AwaitCommand, outs)
                }
            },
            (ServerSession::AwaitNewPassword(session), ClientEvent::Text(p)) => {
                let n = p.message.as_str().unicode_len();
                if n < 0x4000_0000 {
                    let user = Authenticate::reset_finish(db, &session.user, &p);
                    (ServerSession::LoggedIn(user), Vec::new())
                } else {
                    (ServerSession::Closed, Vec::new())
                }
            },
            (ServerSession::LoggedIn(user), ClientEvent::Action(a)) => {
                let mut user = user;
                match a {
                    Action::Switch2FA => {
                        let m = Action::switch_2fa(&mut user, db);
                        let mut outs: Vec<ServerOutput> = Vec::new();
                        outs.push(ServerOutput::Switch(m));
                        (ServerSession::LoggedIn(user), outs)
                    },
                    Action::Logout => (ServerSession::AwaitCommand, Vec::new()),
                }
            },
            (_, _) => (ServerSession::Closed, Vec::new()),
        }
    }
}

} // verus!
