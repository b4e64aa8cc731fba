//! The client side of the post-authentication actions.

use vstd::prelude::*;
use vstd::string::StringExecFns;
use crate::data::Switch2FA;

verus! {

/// The actions a client may request while authenticated.
#[derive(Clone, Copy, Debug)]
pub enum Action {
    Switch2FA,
    Logout,
}

impl Action {
    /// Whether the authenticated sub-loop continues once this action's
    /// round completes: a toggle keeps the session, a logout ends it.
    pub fn perform(&self) -> (r: bool)
        ensures
            r == (self is Switch2FA),
    {
        match self {
            Action::Switch2FA => true,
            Action::Logout => false,
        }
    }

    /// The text shown for the server's toggle reply.
    pub fn switch_2fa(reply: &Switch2FA) -> (r: String)
        ensures
            reply.two_f_a ==> r@ == "\n2FA enabled!\n"@,
            !reply.two_f_a ==> r@ == "\n2FA disabled!\n"@,
    {
        if reply.two_f_a {
            <String as StringExecFns>::from_str("\n2FA enabled!\n")
        } else {
            <String as StringExecFns>::from_str("\n2FA disabled!\n")
        }
    }
}

} // verus!
