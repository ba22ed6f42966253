//! The injected source of randomness.

use vstd::prelude::*;
use rand::Rng;

verus! {

/// Relies on `rand::Rng::gen_range` (rand 0.8) on the thread-local
/// generator: a draw from the half-open range `low..high`. It panics only
/// on an empty range, which the precondition rules out; every outcome lies
/// in `[low, high)`.
#[verifier::external_body]
pub(crate) fn rand_in_range(low: i64, high: i64) -> (r: i64)
    requires
        low < high,
    ensures
        low <= r < high,
{
    rand::thread_rng().gen_range(low..high)
}

} // verus!
