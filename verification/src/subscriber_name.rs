//! Subscriber names.
//!
//! A name is accepted when it contains a visible character, is at most
//! [`MAX_NAME_LEN`] characters long and avoids the characters that the
//! rendering layer cannot take verbatim.

use vstd::prelude::*;

verus! {

/// Names longer than this are rejected.
pub const MAX_NAME_LEN: usize = 256;

/// The whitespace characters a name must not consist of exclusively.
pub open spec fn name_whitespace_char(c: char) -> bool {
    c == ' ' || c == '\t' || c == '\n' || c == '\r'
}

/// Characters that are never accepted in a name.
pub open spec fn forbidden_name_char(c: char) -> bool {
    c == '/' || c == '(' || c == ')' || c == '"' || c == '<' || c == '>' || c == '\\' || c == '{'
        || c == '}'
}

/// Whether a string is acceptable as a subscriber name.
pub open spec fn valid_name(s: Seq<char>) -> bool {
    &&& exists|i: int| 0 <= i < s.len() && !name_whitespace_char(s[i])
    &&& s.len() <= MAX_NAME_LEN
    &&& forall|i: int| 0 <= i < s.len() ==> !forbidden_name_char(#[trigger] s[i])
}

/// A validated subscriber name.
#[derive(Debug, Clone)]
pub struct SubscriberName {
    name: String,
}

impl View for SubscriberName {
    type V = Seq<char>;

    closed spec fn view(&self) -> Seq<char> {
        self.name@
    }
}

impl SubscriberName {
    /// Accepts exactly the strings that [`valid_name`] accepts.
    pub fn parse(s: String) -> (r: Result<SubscriberName, String>)
        ensures
            match r {
                Ok(n) => valid_name(s@) && n@ == s@,
                Err(m) => !valid_name(s@) && m@ == s@ + " is not a valid subscriber name."@,
            },
    {
        let n = s.as_str().unicode_len();
        if n > MAX_NAME_LEN {
            return Err(s.concat(" is not a valid subscriber name."));
        }
        let mut seen_visible = false;
        let mut seen_forbidden = false;
        let mut i: usize = 0;
        while i < n
            invariant
                i <= n,
                n == s@.len(),
                seen_visible == exists|j: int| 0 <= j < i && !name_whitespace_char(s@[j]),
                seen_forbidden == exists|j: int| 0 <= j < i && forbidden_name_char(s@[j]),
            decreases n - i,
        {
            let c = s.as_str().get_char(i);
            if !(c == ' ' || c == '\t' || c == '\n' || c == '\r') {
                seen_visible = true;
            }
            if c == '/' || c == '(' || c == ')' || c == '"' || c == '<' || c == '>' || c == '\\'
                || c == '{' || c == '}' {
                seen_forbidden = true;
            }
            i = i + 1;
        }
        if seen_visible && !seen_forbidden {
            Ok(SubscriberName { name: s })
        } else {
            Err(s.concat(" is not a valid subscriber name."))
        }
    }

    /// The inner value.
    pub fn as_ref(&self) -> (r: &str)
        ensures
            r@ == self@,
    {
        self.name.as_str()
    }
}

} // verus!
