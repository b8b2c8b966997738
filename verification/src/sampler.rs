//! Random draws. Nothing here is proved: each function states what holds of
//! every value the generator can hand back, and no more.

use rand::Rng;
use vstd::prelude::*;

verus! {

/// Calls `rand::Rng::gen_range` on `rand::thread_rng()` with the half-open
/// range `lo..hi`. The generator panics on an empty range, so the range must
/// hold a value; what comes back lies in it.
#[verifier::external_body]
pub(crate) fn random_in(lo: usize, hi: usize) -> (r: usize)
    requires
        lo < hi,
    ensures
        lo <= r < hi,
{
    rand::thread_rng().gen_range(lo..hi)
}

/// Calls `rand::Rng::gen_ratio` on `rand::thread_rng()`: `true` with
/// probability `numerator / denominator`. The generator panics on a zero
/// denominator and on a ratio above one. A ratio of one always gives `true`,
/// a ratio of zero always `false`.
#[verifier::external_body]
pub(crate) fn random_ratio(numerator: u32, denominator: u32) -> (r: bool)
    requires
        0 < denominator,
        numerator <= denominator,
    ensures
        numerator == denominator ==> r,
        numerator == 0 ==> !r,
{
    rand::thread_rng().gen_ratio(numerator, denominator)
}

} // verus!
