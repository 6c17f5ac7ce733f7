//! Client-supplied idempotency keys.
//!
//! A key identifies one logical publish command, so that repeated
//! submissions are recognised as duplicates. A key is valid when it is
//! non-empty and strictly shorter than [`MAX_KEY_LEN`] characters; it is
//! rejected at construction otherwise and immutable afterwards.

use vstd::prelude::*;

verus! {

/// Keys must be strictly shorter than this many characters.
pub const MAX_KEY_LEN: usize = 50;

/// Why a string was refused as an idempotency key.
#[derive(Clone, Copy, Debug, PartialEq, Eq, Structural)]
pub enum IdempotencyKeyError {
    /// The key was the empty string.
    Empty,
    /// The key was 50 characters long or longer.
    TooLong,
}

/// A validated idempotency key.
#[derive(Debug, Clone)]
pub struct IdempotencyKey {
    key: String,
}

impl View for IdempotencyKey {
    type V = Seq<char>;

    closed spec fn view(&self) -> Seq<char> {
        self.key@
    }
}

/// Whether a string is acceptable as an idempotency key.
pub open spec fn valid_key(s: Seq<char>) -> bool {
    0 < s.len() < MAX_KEY_LEN
}

impl IdempotencyKey {
    /// Validates a client-supplied string; the invariant of the type is
    /// exactly `valid_key`.
    pub fn try_from(s: String) -> (r: Result<IdempotencyKey, IdempotencyKeyError>)
        ensures
            match r {
                Ok(k) => valid_key(s@) && k@ == s@,
                Err(IdempotencyKeyError::Empty) => s@.len() == 0,
                Err(IdempotencyKeyError::TooLong) => s@.len() >= MAX_KEY_LEN,
            },
    {
        let n = s.as_str().unicode_len();
        if n == 0 {
            Err(IdempotencyKeyError::Empty)
        } else if n >= MAX_KEY_LEN {
            Err(IdempotencyKeyError::TooLong)
        } else {
            Ok(IdempotencyKey { key: s })
        }
    }

    /// The inner value, for handing to the store.
    pub fn as_ref(&self) -> (r: &str)
        ensures
            r@ == self@,
    {
        self.key.as_str()
    }

    /// The inner value, borrowed as a `String`.
    pub fn as_string(&self) -> (r: &String)
        ensures
            r@ == self@,
    {
        &self.key
    }

    /// Consumes the key, returning the inner string.
    pub fn into_string(self) -> (r: String)
        ensures
            r@ == self@,
    {
        self.key
    }
}

} // verus!
