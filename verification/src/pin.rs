//! Validated hardware-key PINs.
//!
//! A PIN is accepted when it is 6 to 8 ASCII letters and digits.

use vstd::prelude::*;
use crate::text::chars_of;

verus! {

/// ASCII letters and digits.
pub open spec fn is_ascii_alnum(c: char) -> bool {
    ('a' <= c && c <= 'z') || ('A' <= c && c <= 'Z') || ('0' <= c && c <= '9')
}

/// The PIN rule: 6 to 8 ASCII letters and digits.
pub open spec fn is_valid_pin(s: Seq<char>) -> bool {
    &&& 6 <= s.len() <= 8
    &&& forall|i: int| 0 <= i < s.len() ==> is_ascii_alnum(#[trigger] s[i])
}

/// A PIN that satisfies the PIN rule.
#[derive(Debug)]
pub struct Pin(String);

/// The rejection of a string that does not satisfy the PIN rule.
#[derive(Debug)]
pub struct PinError;

impl View for Pin {
    type V = Seq<char>;

    closed spec fn view(&self) -> Seq<char> {
        self.0@
    }
}

impl Clone for Pin {
    fn clone(&self) -> (r: Self)
        ensures
            r == *self,
    {
        Pin(self.0.clone())
    }
}

/// Decides the PIN rule.
#[verifier::loop_isolation(false)]
fn check_pin(v: &Vec<char>) -> (r: bool)
    ensures
        r == is_valid_pin(v@),
{
    let ghost s = v@;
    let n = v.len();
    if n < 6 || n > 8 {
        return false;
    }
    let mut i: usize = 0;
    while i < n
        invariant
            i <= n,
            forall|j: int| 0 <= j < i ==> is_ascii_alnum(#[trigger] s[j]),
        decreases n - i,
    {
        let c = v[i];
        if !(('a' <= c && c <= 'z') || ('A' <= c && c <= 'Z') || ('0' <= c && c <= '9')) {
            return false;
        }
        i = i + 1;
    }
    true
}

impl Pin {
    /// Parses a PIN, accepting exactly the strings of the rule.
    pub fn from_str(s: &str) -> (r: Result<Pin, PinError>)
        ensures
            r matches Ok(p) ==> p@ == s@ && is_valid_pin(s@),
            r is Err <==> !is_valid_pin(s@),
    {
        let v = chars_of(s);
        if check_pin(&v) {
            Ok(Pin(<String as vstd::string::StringExecFns>::from_str(s)))
        } else {
            Err(PinError)
        }
    }

    /// The PIN as text.
    pub fn as_str(&self) -> (r: &str)
        ensures
            r@ == self@,
    {
        self.0.as_str()
    }
}

} // verus!
