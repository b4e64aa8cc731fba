//! The user store: records keyed by validated email.
//!
//! The store is an in-memory map with unique email keys; making it
//! durable is the surrounding process's concern.  A lookup sees either a
//! record exactly as it was put, or nothing.

use vstd::prelude::*;
use crate::email::Email;
use crate::user::{User, UserView};

verus! {

/// First match by email in a sequence of records.
pub closed spec fn seq_get(users: Seq<User>, email: Seq<char>) -> Option<UserView>
    decreases users.len(),
{
    if users.len() == 0 {
        None
    } else if users[0]@.email == email {
        Some(users[0]@)
    } else {
        seq_get(users.drop_first(), email)
    }
}

/// Skipping a prefix without the key leaves a lookup unchanged.
proof fn lemma_seq_get_skip(users: Seq<User>, email: Seq<char>, i: int)
    requires
        0 <= i <= users.len(),
        forall|j: int| 0 <= j < i ==> users[j]@.email != email,
    ensures
        seq_get(users, email) == seq_get(users.skip(i), email),
    decreases i,
{
    if i > 0 {
        assert(users[0]@.email != email);
        assert forall|j: int| 0 <= j < i - 1 implies users.drop_first()[j]@.email != email by {
            assert(users.drop_first()[j] == users[j + 1]);
        }
        lemma_seq_get_skip(users.drop_first(), email, i - 1);
        assert(users.drop_first() =~= users.skip(1));
        assert(users.skip(1).skip(i - 1) =~= users.skip(i));
    } else {
        assert(users.skip(0) =~= users);
    }
}

/// Replacing a record leaves lookups of other keys unchanged.
proof fn lemma_seq_get_update_other(users: Seq<User>, i: int, u: User, t: Seq<char>)
    requires
        0 <= i < users.len(),
        t != u@.email,
        t != users[i]@.email,
    ensures
        seq_get(users.update(i, u), t) == seq_get(users, t),
    decreases users.len(),
{
    let new = users.update(i, u);
    if i == 0 {
        assert(new[0] == u);
        assert(new.drop_first() =~= users.drop_first());
    } else {
        assert(new[0] == users[0]);
        if users[0]@.email != t {
            lemma_seq_get_update_other(users.drop_first(), i - 1, u, t);
            assert(new.drop_first() =~= users.drop_first().update(i - 1, u));
        }
    }
}

/// Appending a record leaves lookups of other keys unchanged.
proof fn lemma_seq_get_push_other(users: Seq<User>, u: User, t: Seq<char>)
    requires
        t != u@.email,
    ensures
        seq_get(users.push(u), t) == seq_get(users, t),
    decreases users.len(),
{
    reveal_with_fuel(seq_get, 3);
    let new = users.push(u);
    if users.len() == 0 {
        assert(new[0] == u);
        assert(new.drop_first() =~= Seq::<User>::empty());
    } else {
        assert(new[0] == users[0]);
        if users[0]@.email != t {
            lemma_seq_get_push_other(users.drop_first(), u, t);
            assert(new.drop_first() =~= users.drop_first().push(u));
        }
    }
}

/// The user store.
#[derive(Debug)]
pub struct Database {
    users: Vec<User>,
}

impl Database {
    /// Emails are unique keys: no two records share one.
    pub closed spec fn wf(&self) -> bool {
        forall|k: int, l: int|
            0 <= k < l < self.users@.len() ==> self.users@[k]@.email != self.users@[l]@.email
    }

    /// The record stored under `email`, if any.
    pub closed spec fn spec_get(&self, email: Seq<char>) -> Option<UserView> {
        seq_get(self.users@, email)
    }

    fn find_index(&self, email: &Email) -> (r: Option<usize>)
        ensures
            r matches Some(i) ==> i < self.users@.len() && self.users@[i as int]@.email == email@
                && forall|j: int| 0 <= j < i ==> self.users@[j]@.email != email@,
            r is None ==> forall|j: int|
                0 <= j < self.users@.len() ==> self.users@[j]@.email != email@,
    {
        let n = self.users.len();
        let mut i: usize = 0;
        while i < n
            invariant
                i <= n,
                n == self.users@.len(),
                forall|j: int| 0 <= j < i ==> self.users@[j]@.email != email@,
            decreases n - i,
        {
            let u = &self.users[i];
            if u.email == *email {
                return Some(i);
            }
            i = i + 1;
        }
        None
    }

    /// Looks up the record stored under `email`.
    pub fn get(&self, email: &Email) -> (r: Option<User>)
        ensures
            r matches Some(u) ==> self.spec_get(email@) == Some(u@),
            r is None <==> self.spec_get(email@) is None,
    {
        match self.find_index(email) {
            Some(i) => {
                proof {
                    lemma_seq_get_skip(self.users@, email@, i as int);
                    assert(self.users@.skip(i as int)[0] == self.users@[i as int]);
                }
                Some(self.users[i].clone())
            },
            None => {
                proof {
                    lemma_seq_get_skip(self.users@, email@, self.users@.len() as int);
                    assert(self.users@.skip(self.users@.len() as int) =~= Seq::<User>::empty());
                }
                None
            },
        }
    }

    /// Stores `user` under its email, replacing any record already there
    /// and leaving every other key untouched.
    pub fn insert(&mut self, user: &User)
        requires
            old(self).wf(),
        ensures
            final(self).wf(),
            final(self).spec_get(user@.email) == Some(user@),
            forall|e: Seq<char>|
                e != user@.email ==> final(self).spec_get(e) == old(self).spec_get(e),
    {
        let ghost prev = self.users@;
        match self.find_index(&user.email) {
            Some(i) => {
                let uc = user.clone();
                proof {
                    assert(uc@ == user@);
                }
                self.users.set(i, uc);
                proof {
                    let now = self.users@;
                    assert(now =~= prev.update(i as int, now[i as int]));
                    assert(now[i as int]@ == user@);
                    // The replaced slot keeps its email, so uniqueness holds.
                    assert forall|k: int, l: int|
                        0 <= k < l < now.len() implies now[k]@.email != now[l]@.email by {
                        assert(prev[k]@.email != prev[l]@.email);
                        if k != i {
                            assert(now[k] == prev[k]);
                        }
                        if l != i {
                            assert(now[l] == prev[l]);
                        }
                    }
                    // The stored key now maps to the new record.
                    assert forall|j: int| 0 <= j < i implies now[j]@.email != user@.email by {
                        assert(now[j] == prev[j]);
                    }
                    lemma_seq_get_skip(now, user@.email, i as int);
                    assert(now.skip(i as int)[0] == now[i as int]);
                    // Other keys are untouched.
                    assert forall|e: Seq<char>|
                        e != user@.email implies seq_get(now, e) == seq_get(prev, e) by {
                        lemma_seq_get_update_other(prev, i as int, now[i as int], e);
                    }
                }
            },
            None => {
                let uc = user.clone();
                proof {
                    assert(uc@ == user@);
                }
                self.users.push(uc);
                proof {
                    let now = self.users@;
                    assert(now =~= prev.push(now[prev.len() as int]));
                    assert(now[prev.len() as int]@ == user@);
                    assert forall|k: int, l: int|
                        0 <= k < l < now.len() implies now[k]@.email != now[l]@.email by {
                        if l < prev.len() {
                            assert(prev[k]@.email != prev[l]@.email);
                        } else {
                            assert(now[k] == prev[k]);
                            assert(prev[k]@.email != user@.email);
                        }
                    }
                    assert forall|j: int| 0 <= j < prev.len() implies now[j]@.email != user@.email
                        by {
                        assert(now[j] == prev[j]);
                    }
                    lemma_seq_get_skip(now, user@.email, prev.len() as int);
                    assert(now.skip(prev.len() as int)[0] == now[prev.len() as int]);
                    assert forall|e: Seq<char>|
                        e != user@.email implies seq_get(now, e) == seq_get(prev, e) by {
                        lemma_seq_get_push_other(prev, now[prev.len() as int], e);
                    }
                }
            },
        }
    }
}

impl Default for Database {
    /// An empty store: well formed, with nothing under any key.
    fn default() -> (r: Self)
        ensures
            r.wf(),
            forall|e: Seq<char>| r.spec_get(e) is None,
    {
        Database { users: Vec::new() }
    }
}

} // verus!
