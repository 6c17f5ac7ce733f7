//! The liveness probe.

use vstd::prelude::*;

use crate::http_response::{text_view, HttpResponse};

verus! {

/// `200 OK`.
pub const STATUS_OK: u16 = 200;

/// Always an empty `200 OK`: reachable means healthy.
pub fn health_check() -> (r: HttpResponse)
    ensures
        r@ =~= text_view(STATUS_OK, Seq::empty()),
{
    let r = HttpResponse::text(STATUS_OK, "");
    proof {
        reveal_strlit("");
        assert(r@.body =~= Seq::<char>::empty());
    }
    r
}

} // verus!
