//! The source of secret numbers.

use rand::Rng;
use vstd::prelude::*;

verus! {

/// Draws a number from the closed range `low..=high`.
///
/// The body calls `rand::Rng::gen_range` on the generator that
/// `rand::thread_rng` hands out. The contract claims only what holds of every
/// draw: the number lies within the range asked for. `gen_range` panics on an
/// empty range, which `requires` rules out. That the draw is uniform is not
/// stated, and two calls with the same bounds may differ.
#[verifier::external_body]
pub(crate) fn random_in_range(low: u32, high: u32) -> (n: u32)
    requires
        low <= high,
    ensures
        low <= n <= high,
{
    rand::thread_rng().gen_range(low..=high)
}

} // verus!
