//! Validated email addresses.
//!
//! An address is accepted when it has the form `local@domain`, where the
//! local part is a non-empty dot-separated sequence of atoms over the
//! atom character set, and the domain is at least two dot-separated
//! labels of lowercase letters, digits and inner hyphens.  Quoted local
//! parts and bracketed address literals are deliberately not accepted.

use vstd::prelude::*;
use crate::text::chars_of;

verus! {

/// Characters allowed inside an atom of the local part.
pub open spec fn is_atext(c: char) -> bool {
    ('a' <= c && c <= 'z') || ('0' <= c && c <= '9') || c == '!' || c == '#' || c == '$' || c
        == '%' || c == '&' || c == '\'' || c == '*' || c == '+' || c == '/' || c == '=' || c == '?'
        || c == '^' || c == '_' || c == '`' || c == '{' || c == '|' || c == '}' || c == '~' || c
        == '-'
}

/// Lowercase letters and digits: the characters that may begin or end a
/// domain label.
pub open spec fn is_alnum_lower(c: char) -> bool {
    ('a' <= c && c <= 'z') || ('0' <= c && c <= '9')
}

/// Characters allowed inside a domain label.
pub open spec fn is_label_char(c: char) -> bool {
    is_alnum_lower(c) || c == '-'
}

/// The local part: non-empty, atoms over [`is_atext`] separated by single
/// dots, with no leading or trailing dot.
pub open spec fn is_local_part(s: Seq<char>) -> bool {
    &&& s.len() > 0
    &&& forall|i: int| 0 <= i < s.len() ==> (is_atext(#[trigger] s[i]) || s[i] == '.')
    &&& s[0] != '.'
    &&& s[s.len() - 1] != '.'
    &&& forall|i: int| 0 < i < s.len() ==> !(s[i - 1] == '.' && #[trigger] s[i] == '.')
}

/// The domain: at least two labels separated by single dots; a label
/// begins and ends with a lowercase letter or digit and may hold hyphens
/// in between.
pub open spec fn is_domain(s: Seq<char>) -> bool {
    &&& s.len() > 0
    &&& forall|i: int| 0 <= i < s.len() ==> (is_label_char(#[trigger] s[i]) || s[i] == '.')
    &&& is_alnum_lower(s[0])
    &&& is_alnum_lower(s[s.len() - 1])
    &&& exists|i: int| 0 <= i < s.len() && #[trigger] s[i] == '.'
    &&& forall|i: int|
        0 <= i < s.len() && #[trigger] s[i] == '.' ==> 0 < i < s.len() - 1 && is_alnum_lower(
            s[i - 1],
        ) && is_alnum_lower(s[i + 1])
}

/// Whether position `k` splits `s` into a valid local part and domain.
pub open spec fn valid_split_at(s: Seq<char>, k: int) -> bool {
    &&& 0 <= k < s.len()
    &&& s[k] == '@'
    &&& is_local_part(s.subrange(0, k))
    &&& is_domain(s.subrange(k + 1, s.len() as int))
}

/// The address grammar: some `@` splits the string into a valid local
/// part and a valid domain.
pub open spec fn is_valid_email(s: Seq<char>) -> bool {
    exists|k: int| valid_split_at(s, k)
}

/// A validated email address; the unique key of a stored user record.
#[derive(Debug)]
pub struct Email(String);

/// The rejection of a string that does not fit the address grammar.
#[derive(Debug)]
pub struct EmailError;

impl View for Email {
    type V = Seq<char>;

    closed spec fn view(&self) -> Seq<char> {
        self.0@
    }
}

impl Clone for Email {
    fn clone(&self) -> (r: Self)
        ensures
            r == *self,
    {
        Email(self.0.clone())
    }
}

impl PartialEq for Email {
    fn eq(&self, other: &Self) -> (r: bool) {
        self.0 == other.0
    }
}

impl vstd::std_specs::cmp::PartialEqSpecImpl for Email {
    open spec fn obeys_eq_spec() -> bool {
        true
    }

    open spec fn eq_spec(&self, other: &Self) -> bool {
        self@ == other@
    }
}

impl Default for Email {
    /// The placeholder address used where a record must exist in shape.
    fn default() -> (r: Self)
        ensures
            r@ == "email@email.email"@,
    {
        Email(<String as vstd::string::StringExecFns>::from_str("email@email.email"))
    }
}

/// Only the first `@` of a string can split it validly: any later split
/// would leave an `@` inside the local part.
proof fn lemma_only_first_at(s: Seq<char>, at: int)
    requires
        0 <= at < s.len(),
        s[at] == '@',
        forall|j: int| 0 <= j < at ==> s[j] != '@',
    ensures
        forall|k: int| valid_split_at(s, k) ==> k == at,
{
    assert forall|k: int| valid_split_at(s, k) implies k == at by {
        if k < at {
            assert(s[k] != '@');
        } else if k > at {
            let local = s.subrange(0, k);
            assert(local[at] == '@');
            assert(is_atext(local[at]) || local[at] == '.');
            assert(!is_atext('@'));
        }
    }
}

fn is_atext_exec(c: char) -> (r: bool)
    ensures
        r == is_atext(c),
{
    ('a' <= c && c <= 'z') || ('0' <= c && c <= '9') || c == '!' || c == '#' || c == '$' || c
        == '%' || c == '&' || c == '\'' || c == '*' || c == '+' || c == '/' || c == '=' || c == '?'
        || c == '^' || c == '_' || c == '`' || c == '{' || c == '|' || c == '}' || c == '~' || c
        == '-'
}

fn is_alnum_lower_exec(c: char) -> (r: bool)
    ensures
        r == is_alnum_lower(c),
{
    ('a' <= c && c <= 'z') || ('0' <= c && c <= '9')
}

fn is_label_char_exec(c: char) -> (r: bool)
    ensures
        r == is_label_char(c),
{
    is_alnum_lower_exec(c) || c == '-'
}

/// Decides the address grammar.
#[verifier::loop_isolation(false)]
fn check_email(v: &Vec<char>) -> (r: bool)
    ensures
        r == is_valid_email(v@),
{
    let n = v.len();
    let ghost s = v@;
    // Find the first '@'.
    let mut at: usize = 0;
    while at < n && v[at] != '@'
        invariant
            at <= n,
            n == s.len(),
            s == v@,
            forall|j: int| 0 <= j < at ==> s[j] != '@',
        decreases n - at,
    {
        at = at + 1;
    }
    if at >= n {
        proof {
            assert forall|k: int| !valid_split_at(s, k) by {
                if 0 <= k < s.len() {
                    assert(s[k] != '@');
                }
            }
        }
        return false;
    }
    proof {
        lemma_only_first_at(s, at as int);
    }
    let ghost local = s.subrange(0, at as int);
    let ghost domain = s.subrange(at + 1 as int, s.len() as int);
    // Local part: non-empty, no dot at either end.
    if at == 0 {
        proof {
            assert(!valid_split_at(s, at as int));
        }
        return false;
    }
    if v[0] == '.' || v[at - 1] == '.' {
        proof {
            assert(local[0] == s[0]);
            assert(local[at - 1] == s[at - 1]);
            assert(!is_local_part(local));
        }
        return false;
    }
    // Local part: atoms over the atom character set, single dots between.
    let mut i: usize = 0;
    while i < at
        invariant
            i <= at,
            at < n == s.len(),
            s == v@,
            forall|j: int| 0 <= j < i ==> (is_atext(#[trigger] s[j]) || s[j] == '.'),
            forall|j: int| 0 < j < i ==> !(s[j - 1] == '.' && #[trigger] s[j] == '.'),
        decreases at - i,
    {
        let c = v[i];
        if !(is_atext_exec(c) || c == '.') {
            proof {
                assert(local[i as int] == s[i as int]);
                assert(!is_local_part(local));
            }
            return false;
        }
        if i > 0 && c == '.' && v[i - 1] == '.' {
            proof {
                assert(local[i as int] == s[i as int]);
                assert(local[i - 1 as int] == s[i - 1 as int]);
                assert(!is_local_part(local));
            }
            return false;
        }
        i = i + 1;
    }
    proof {
        assert forall|j: int| 0 <= j < local.len() implies (is_atext(#[trigger] local[j])
            || local[j] == '.') by {
            assert(local[j] == s[j]);
        }
        assert forall|j: int| 0 < j < local.len() implies !(local[j - 1] == '.'
            && #[trigger] local[j] == '.') by {
            assert(local[j] == s[j]);
            assert(local[j - 1] == s[j - 1]);
        }
        assert(is_local_part(local));
    }
    // Domain: non-empty, begins and ends with a letter or digit.
    if at + 1 >= n {
        proof {
            assert(domain.len() == 0);
            assert(!valid_split_at(s, at as int));
        }
        return false;
    }
    if !is_alnum_lower_exec(v[at + 1]) || !is_alnum_lower_exec(v[n - 1]) {
        proof {
            assert(domain[0] == s[at + 1 as int]);
            assert(domain[domain.len() - 1] == s[n - 1 as int]);
            assert(!is_domain(domain));
        }
        return false;
    }
    // Domain: label characters and single dots with letter-or-digit
    // neighbours; at least one dot.
    let mut has_dot: bool = false;
    let mut i: usize = at + 1;
    while i < n
        invariant
            at + 1 <= i <= n,
            at < n == s.len(),
            s == v@,
            is_alnum_lower(s[at + 1 as int]),
            is_alnum_lower(s[n - 1 as int]),
            forall|j: int| at + 1 <= j < i ==> (is_label_char(#[trigger] s[j]) || s[j] == '.'),
            forall|j: int|
                at + 1 <= j < i && #[trigger] s[j] == '.' ==> at + 1 < j < n - 1 && is_alnum_lower(
                    s[j - 1],
                ) && is_alnum_lower(s[j + 1]),
            has_dot == exists|j: int| at + 1 <= j < i && #[trigger] s[j] == '.',
        decreases n - i,
    {
        let c = v[i];
        if !(is_label_char_exec(c) || c == '.') {
            proof {
                assert(domain[i - (at + 1) as int] == s[i as int]);
                assert(!is_domain(domain));
            }
            return false;
        }
        if c == '.' {
            // The first and last domain characters are letters or digits,
            // so a dot can stand neither there nor beside anything but a
            // letter or digit.
            if i + 1 >= n {
                proof {
                    assert(is_alnum_lower(s[n - 1 as int]));
                    assert(false);
                }
                return false;
            }
            if !is_alnum_lower_exec(v[i - 1]) || !is_alnum_lower_exec(v[i + 1]) {
                proof {
                    if i == at + 1 {
                        assert(is_alnum_lower(s[at + 1 as int]));
                        assert(false);
                    }
                    assert(domain[i - (at + 1) as int] == s[i as int]);
                    assert(domain[i - 1 - (at + 1) as int] == s[i - 1 as int]);
                    assert(domain[i + 1 - (at + 1) as int] == s[i + 1 as int]);
                    assert(!is_domain(domain));
                }
                return false;
            }
            proof {
                assert(is_alnum_lower(s[at + 1 as int]));
                assert(i != at + 1);
            }
            has_dot = true;
        }
        i = i + 1;
    }
    if !has_dot {
        proof {
            assert forall|j: int| 0 <= j < domain.len() implies #[trigger] domain[j] != '.' by {
                assert(domain[j] == s[at + 1 + j]);
            }
            assert(!is_domain(domain));
        }
        return false;
    }
    proof {
        assert forall|j: int| 0 <= j < domain.len() implies (is_label_char(#[trigger] domain[j])
            || domain[j] == '.') by {
            assert(domain[j] == s[at + 1 + j]);
        }
        assert(domain[0] == s[at + 1 as int]);
        assert(domain[domain.len() - 1] == s[n - 1 as int]);
        let w = choose|j: int| at + 1 <= j < n && #[trigger] s[j] == '.';
        assert(domain[w - (at + 1)] == s[w]);
        assert forall|j: int|
            0 <= j < domain.len() && #[trigger] domain[j] == '.' implies 0 < j < domain.len() - 1
            && is_alnum_lower(domain[j - 1]) && is_alnum_lower(domain[j + 1]) by {
            assert(domain[j] == s[at + 1 + j]);
            assert(s[at + 1 + j] == '.');
            assert(at + 1 < at + 1 + j < n - 1);
            assert(domain[j - 1] == s[at + 1 + j - 1]);
            assert(domain[j + 1] == s[at + 1 + j + 1]);
        }
        assert(is_domain(domain));
        assert(valid_split_at(s, at as int));
    }
    true
}

impl Email {
    /// Parses an address, accepting exactly the strings of the grammar.
    pub fn from_str(s: &str) -> (r: Result<Email, EmailError>)
        ensures
            r matches Ok(e) ==> e@ == s@ && is_valid_email(s@),
            r is Err <==> !is_valid_email(s@),
    {
        let v = chars_of(s);
        if check_email(&v) {
            Ok(Email(<String as vstd::string::StringExecFns>::from_str(s)))
        } else {
            Err(EmailError)
        }
    }

    /// The address as text.
    pub fn as_str(&self) -> (r: &str)
        ensures
            r@ == self@,
    {
        self.0.as_str()
    }
}

} // verus!
