//! Validated reset tokens.
//!
//! A token is accepted when it has the hyphenated UUID shape: 36
//! characters, hyphens at positions 8, 13, 18 and 23, hexadecimal digits
//! everywhere else.

use vstd::prelude::*;
use crate::crypto::is_uuid_text;
use crate::text::chars_of;

verus! {

/// Hexadecimal digits, either case.
pub open spec fn is_hex_digit(c: char) -> bool {
    ('0' <= c && c <= '9') || ('a' <= c && c <= 'f') || ('A' <= c && c <= 'F')
}

/// The token rule: the hyphenated UUID shape.
pub open spec fn is_valid_token(s: Seq<char>) -> bool {
    &&& s.len() == 36
    &&& forall|i: int|
        0 <= i < 36 ==> if i == 8 || i == 13 || i == 18 || i == 23 {
            s[i] == '-'
        } else {
            is_hex_digit(#[trigger] s[i])
        }
}

/// Every token the server issues fits the token rule: the issued text is
/// a hyphenated UUID in lowercase hexadecimal.
pub proof fn lemma_uuid_text_is_valid_token(s: Seq<char>)
    requires
        is_uuid_text(s),
    ensures
        is_valid_token(s),
{
}

/// A token that satisfies the token rule.
#[derive(Debug)]
pub struct Token(String);

/// The rejection of a string that does not satisfy the token rule.
#[derive(Debug)]
pub struct TokenError;

impl View for Token {
    type V = Seq<char>;

    closed spec fn view(&self) -> Seq<char> {
        self.0@
    }
}

impl Clone for Token {
    fn clone(&self) -> (r: Self)
        ensures
            r == *self,
    {
        Token(self.0.clone())
    }
}

/// Decides the token rule.
#[verifier::loop_isolation(false)]
fn check_token(v: &Vec<char>) -> (r: bool)
    ensures
        r == is_valid_token(v@),
{
    let ghost s = v@;
    let n = v.len();
    if n != 36 {
        return false;
    }
    let mut i: usize = 0;
    while i < n
        invariant
            i <= n,
            forall|j: int|
                0 <= j < i ==> if j == 8 || j == 13 || j == 18 || j == 23 {
                    s[j] == '-'
                } else {
                    is_hex_digit(#[trigger] s[j])
                },
        decreases n - i,
    {
        let c = v[i];
        if i == 8 || i == 13 || i == 18 || i == 23 {
            if c != '-' {
                return false;
            }
        } else {
            if !(('0' <= c && c <= '9') || ('a' <= c && c <= 'f') || ('A' <= c && c <= 'F')) {
                return false;
            }
        }
        i = i + 1;
    }
    true
}

impl Token {
    /// Parses a token, accepting exactly the strings of the rule.
    pub fn from_str(s: &str) -> (r: Result<Token, TokenError>)
        ensures
            r matches Ok(t) ==> t@ == s@ && is_valid_token(s@),
            r is Err <==> !is_valid_token(s@),
    {
        let v = chars_of(s);
        if check_token(&v) {
            Ok(Token(<String as vstd::string::StringExecFns>::from_str(s)))
        } else {
            Err(TokenError)
        }
    }

    /// The token as text.
    pub fn as_str(&self) -> (r: &str)
        ensures
            r@ == self@,
    {
        self.0.as_str()
    }
}

} // verus!
