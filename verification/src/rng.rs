//! The scene's only source of randomness, behind one trusted boundary.

use vstd::prelude::*;
use rand::Rng;

verus! {

/// Relies on `rand::Rng::gen_range` over `rand::thread_rng()`: it returns a
/// uniformly sampled value of the half-open range `lo..hi` and panics only
/// on an empty range, which the precondition rules out.  Nothing more is
/// assumed of the sample: callers must hold for every value in the range.
#[verifier::external_body]
pub fn random_in_range(lo: i64, hi: i64) -> (r: i64)
    requires
        lo < hi,
    ensures
        lo <= r < hi,
{
    rand::thread_rng().gen_range(lo..hi)
}

} // verus!
