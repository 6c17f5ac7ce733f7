//! Generated row identifiers.

use vstd::prelude::*;

verus! {

/// Relies on uuid's `Uuid::new_v4`: a randomly generated version-4 UUID,
/// handed on as its 128-bit value. Nothing is promised of the result; the
/// callers treat a collision with an existing row as a failed transaction.
#[verifier::external_body]
pub(crate) fn generate_row_id() -> u128 {
    uuid::Uuid::new_v4().as_u128()
}

} // verus!
