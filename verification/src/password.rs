//! Validated passwords.
//!
//! A password is accepted when it is 8 to 64 characters long, holds no
//! newline, and contains at least one uppercase letter, one lowercase
//! letter, one digit and one special character.

use vstd::prelude::*;
use crate::text::chars_of;

verus! {

/// The special characters a password may satisfy its special-character
/// requirement with.
pub open spec fn is_password_special(c: char) -> bool {
    c == '#' || c == '?' || c == '!' || c == '@' || c == '$' || c == ' ' || c == '%' || c == '&'
        || c == '*' || c == '^' || c == '-' || c == '+' || c == '.' || c == '/' || c == '\\'
}

/// The password rule: length 8 to 64, no newline, and an uppercase
/// letter, a lowercase letter, a digit and a special character each
/// present.
pub open spec fn is_valid_password(s: Seq<char>) -> bool {
    &&& 8 <= s.len() <= 64
    &&& forall|i: int| 0 <= i < s.len() ==> #[trigger] s[i] != '\n'
    &&& exists|i: int| 0 <= i < s.len() && ('A' <= #[trigger] s[i] && s[i] <= 'Z')
    &&& exists|i: int| 0 <= i < s.len() && ('a' <= #[trigger] s[i] && s[i] <= 'z')
    &&& exists|i: int| 0 <= i < s.len() && ('0' <= #[trigger] s[i] && s[i] <= '9')
    &&& exists|i: int| 0 <= i < s.len() && is_password_special(#[trigger] s[i])
}

/// A password that satisfies the password rule.
#[derive(Debug)]
pub struct Password(String);

/// The rejection of a string that does not satisfy the password rule.
#[derive(Debug)]
pub struct PasswordError;

impl View for Password {
    type V = Seq<char>;

    closed spec fn view(&self) -> Seq<char> {
        self.0@
    }
}

impl Password {
    /// Every password value satisfies the password rule: the only
    /// constructors are the parser and the fixed placeholder.
    #[verifier::type_invariant]
    pub closed spec fn inv(self) -> bool {
        is_valid_password(self.0@)
    }

}

impl Clone for Password {
    fn clone(&self) -> (r: Self)
        ensures
            r == *self,
    {
        proof {
            use_type_invariant(&*self);
        }
        Password(self.0.clone())
    }
}

impl Default for Password {
    /// A fixed placeholder that satisfies the password rule.
    fn default() -> (r: Self)
        ensures
            r@ == "12*#abCD"@,
    {
        proof {
            reveal_strlit("12*#abCD");
            let s = "12*#abCD"@;
            assert(s.len() == 8);
            assert(s[0] == '1');
            assert(s[1] == '2');
            assert(s[2] == '*');
            assert(s[3] == '#');
            assert(s[4] == 'a');
            assert(s[5] == 'b');
            assert(s[6] == 'C');
            assert(s[7] == 'D');
            assert(is_valid_password(s));
        }
        Password(<String as vstd::string::StringExecFns>::from_str("12*#abCD"))
    }
}

fn is_password_special_exec(c: char) -> (r: bool)
    ensures
        r == is_password_special(c),
{
    c == '#' || c == '?' || c == '!' || c == '@' || c == '$' || c == ' ' || c == '%' || c == '&'
        || c == '*' || c == '^' || c == '-' || c == '+' || c == '.' || c == '/' || c == '\\'
}

/// Decides the password rule.
#[verifier::loop_isolation(false)]
fn check_password(v: &Vec<char>) -> (r: bool)
    ensures
        r == is_valid_password(v@),
{
    let ghost s = v@;
    let n = v.len();
    if n < 8 || n > 64 {
        return false;
    }
    let mut has_upper: bool = false;
    let mut has_lower: bool = false;
    let mut has_digit: bool = false;
    let mut has_special: bool = false;
    let mut i: usize = 0;
    while i < n
        invariant
            i <= n,
            forall|j: int| 0 <= j < i ==> #[trigger] s[j] != '\n',
            has_upper == exists|j: int| 0 <= j < i && ('A' <= #[trigger] s[j] && s[j] <= 'Z'),
            has_lower == exists|j: int| 0 <= j < i && ('a' <= #[trigger] s[j] && s[j] <= 'z'),
            has_digit == exists|j: int| 0 <= j < i && ('0' <= #[trigger] s[j] && s[j] <= '9'),
            has_special == exists|j: int| 0 <= j < i && is_password_special(#[trigger] s[j]),
        decreases n - i,
    {
        let c = v[i];
        if c == '\n' {
            return false;
        }
        if 'A' <= c && c <= 'Z' {
            has_upper = true;
        }
        if 'a' <= c && c <= 'z' {
            has_lower = true;
        }
        if '0' <= c && c <= '9' {
            has_digit = true;
        }
        if is_password_special_exec(c) {
            has_special = true;
        }
        i = i + 1;
    }
    has_upper && has_lower && has_digit && has_special
}

impl Password {
    /// Parses a password, accepting exactly the strings of the rule.
    pub fn from_str(s: &str) -> (r: Result<Password, PasswordError>)
        ensures
            r matches Ok(p) ==> p@ == s@ && is_valid_password(s@),
            r is Err <==> !is_valid_password(s@),
    {
        let v = chars_of(s);
        if check_password(&v) {
            Ok(Password(<String as vstd::string::StringExecFns>::from_str(s)))
        } else {
            Err(PasswordError)
        }
    }

    /// The password as text; every password value obeys the rule.
    pub fn as_str(&self) -> (r: &str)
        ensures
            r@ == self@,
            is_valid_password(self@),
    {
        proof {
            use_type_invariant(&*self);
        }
        self.0.as_str()
    }
}

} // verus!
