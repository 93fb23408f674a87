//! The one random draw the simulation makes: the vertical placement of a
//! freshly spawned obstacle's gap.

use vstd::prelude::*;

verus! {

/// Relies on `rand::random_range` over `lo..=hi`: a sample drawn from the
/// inclusive range by the thread-local generator. It panics only on an
/// empty range, which `lo <= hi` rules out; nothing more than membership
/// is promised of the outcome.
#[verifier::external_body]
pub(crate) fn random_in_range(lo: i64, hi: i64) -> (r: i64)
    requires
        lo <= hi,
    ensures
        lo <= r <= hi,
{
    rand::random_range(lo..=hi)
}

} // verus!
