//! The one source of chance in the library.

use vstd::prelude::*;
use rand::Rng;

verus! {

/// A position below `bound`, by `rand::Rng::gen_range` on the half-open range
/// `0..bound` of the generator that `rand::thread_rng` hands out.
///
/// Believed, not proved: the result lies in the range. `gen_range` panics on
/// an empty range, which `bound > 0` rules out; `thread_rng` panics where the
/// system gives it nothing to seed from, which no argument decides. Which
/// position comes back is up to the generator, so nothing more is claimed,
/// and two calls may differ.
#[verifier::external_body]
pub(crate) fn random_below(bound: u32) -> (position: u32)
    requires
        bound > 0,
    ensures
        position < bound,
{
    rand::thread_rng().gen_range(0..bound)
}

} // verus!
