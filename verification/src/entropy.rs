//! The randomness behind a roll.

use rand::distributions::Uniform;
use rand::rngs::SmallRng;
use rand::{Rng, SeedableRng};
use vstd::prelude::*;

verus! {

/// Draws one integer from the closed range `low ..= high`.
///
/// Not proved, but taken from `rand`: the body seeds a new
/// `rand::rngs::SmallRng` with `SeedableRng::from_entropy` and hands
/// `rand::distributions::Uniform::new_inclusive(low, high)` to `Rng::sample`.
/// `new_inclusive` panics when `low > high`, which `requires` rules out. For
/// `u32` the sampler returns `low` plus an offset below `high - low + 1`, so
/// the result lies between the two bounds, both included. Nothing is claimed
/// about which value comes out: two calls on the same bounds may differ.
///
/// `from_entropy` panics if the operating system cannot provide a seed, and
/// the sampler's rejection loop ends with probability one, not with
/// certainty; neither depends on the arguments.
#[verifier::external_body]
pub(crate) fn draw_inclusive(low: u32, high: u32) -> (value: u32)
    requires
        low <= high,
    ensures
        low <= value <= high,
{
    let mut rng = SmallRng::from_entropy();
    rng.sample(Uniform::new_inclusive(low, high))
}

} // verus!
