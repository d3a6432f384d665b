//! The one source of randomness: hazard and pickup placement.

use vstd::prelude::*;

verus! {

/// Relies on `rand::Rng::gen_range` over the half-open `i64` range
/// `lo..hi`: it returns a value of that range and panics only when the
/// range is empty, which the precondition rules out. Nothing more is
/// assumed of the draw; every caller states what holds of any outcome.
#[verifier::external_body]
pub(crate) fn random_between(lo: i64, hi: i64) -> (r: i64)
    requires
        lo < hi,
    ensures
        lo <= r < hi,
{
    rand::Rng::gen_range(&mut rand::thread_rng(), lo..hi)
}

} // verus!
