//! The pieces of the weather pictures that do not depend on floating point.
pub mod clouds;
pub mod precipitation;
pub mod temperature;
pub mod wind;

use vstd::prelude::*;
use rand::Rng;

verus! {

/// Calls `rand::Rng::gen_range` with the range `0..n` on the thread's
/// generator: a number drawn below `n` (the call panics on an empty range,
/// hence `n > 0`).
#[verifier::external_body]
pub(crate) fn random_below(n: usize) -> (r: usize)
    requires
        n > 0,
    ensures
        r < n,
{
    rand::thread_rng().gen_range(0..n)
}

} // verus!
