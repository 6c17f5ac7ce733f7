//! Subscriber email addresses.
//!
//! Whether a string is an acceptable address is decided by the `validator`
//! crate; the library names that judgement [`is_valid_email`] and carries
//! it in the type: a [`SubscriberEmail`] holds a string the check
//! accepted.

use vstd::prelude::*;

use validator::ValidateEmail;

verus! {

/// What the email check of the `validator` crate returns for these
/// characters: a function of the string alone.
pub uninterp spec fn is_valid_email(s: Seq<char>) -> bool;

/// Relies on validator's `ValidateEmail::validate_email` for `String`: an
/// HTML5-style address check whose result depends on the characters alone.
#[verifier::external_body]
pub(crate) fn check_email(s: &String) -> (r: bool)
    ensures
        r == is_valid_email(s@),
{
    s.validate_email()
}

/// An email address that passed the address check.
#[derive(Debug, Clone)]
pub struct SubscriberEmail {
    mail: String,
}

impl View for SubscriberEmail {
    type V = Seq<char>;

    closed spec fn view(&self) -> Seq<char> {
        self.mail@
    }
}

impl SubscriberEmail {
    /// Accepts exactly the strings that the address check accepts; the
    /// error carries the offending address.
    pub fn parse(s: String) -> (r: Result<SubscriberEmail, String>)
        ensures
            match r {
                Ok(e) => is_valid_email(s@) && e@ == s@,
                Err(m) => !is_valid_email(s@) && m@ == s@ + " is not a valid subscriber email."@,
            },
    {
        if check_email(&s) {
            Ok(SubscriberEmail { mail: s })
        } else {
            Err(s.concat(" is not a valid subscriber email."))
        }
    }

    /// The inner value.
    pub fn as_ref(&self) -> (r: &str)
        ensures
            r@ == self@,
    {
        self.mail.as_str()
    }

    /// The inner value, borrowed as a `String`.
    pub fn as_string(&self) -> (r: &String)
        ensures
            r@ == self@,
    {
        &self.mail
    }

    /// Consumes the address, returning the inner string.
    pub fn into_string(self) -> (r: String)
        ensures
            r@ == self@,
    {
        self.mail
    }
}

} // verus!
