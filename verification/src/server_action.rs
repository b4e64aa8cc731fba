//! Post-authentication actions.

use vstd::prelude::*;
use crate::data::Switch2FA;
use crate::database::Database;
use crate::user::{User, UserView};

verus! {

/// Operations available only after a successful authentication.
#[derive(Clone, Copy, Debug)]
pub enum Action {
    Switch2FA,
    Logout,
}

/// The record with the opposite second-factor preference and everything
/// else unchanged.
pub open spec fn toggled(u: UserView) -> UserView {
    UserView { two_f_a: !u.two_f_a, ..u }
}

/// Toggling the second factor twice returns a record to its original
/// state.
pub proof fn lemma_toggle_twice_restores(u: UserView)
    ensures
        toggled(toggled(u)) == u,
{
}

impl Action {
    /// Routes one received action.  `Switch2FA` flips and persists the
    /// preference and replies with the new state; `Logout` ends the
    /// authenticated sub-loop, changing nothing.
    pub fn perform(self, user: &mut User, db: &mut Database) -> (r: (bool, Option<Switch2FA>))
        requires
            old(db).wf(),
        ensures
            final(db).wf(),
            match self {
                Action::Switch2FA => {
                    &&& r.0 == true
                    &&& r.1 matches Some(m) && m.two_f_a == final(user)@.two_f_a
                    &&& final(user)@ == toggled(old(user)@)
                    &&& final(db).spec_get(old(user)@.email) == Some(final(user)@)
                    &&& forall|e: Seq<char>|
                        e != old(user)@.email ==> final(db).spec_get(e) == old(db).spec_get(e)
                },
                Action::Logout => {
                    &&& r.0 == false
                    &&& r.1 is None
                    &&& *final(user) == *old(user)
                    &&& *final(db) == *old(db)
                },
            },
    {
        match self {
            Action::Switch2FA => {
                let m = Action::switch_2fa(user, db);
                (true, Some(m))
            },
            Action::Logout => (false, None),
        }
    }

    /// Flips the in-memory second-factor preference, persists the record
    /// at once, and reports the new state.
    pub fn switch_2fa(user: &mut User, db: &mut Database) -> (r: Switch2FA)
        requires
            old(db).wf(),
        ensures
            final(db).wf(),
            final(user)@ == toggled(old(user)@),
            r.two_f_a == final(user)@.two_f_a,
            final(db).spec_get(old(user)@.email) == Some(final(user)@),
            forall|e: Seq<char>|
                e != old(user)@.email ==> final(db).spec_get(e) == old(db).spec_get(e),
    {
        user.two_f_a = !user.two_f_a;
        db.insert(user);
        Switch2FA { two_f_a: user.two_f_a }
    }
}

} // verus!
