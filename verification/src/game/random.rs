//! The two draws of chance that a match needs. Both use the generator that
//! `rand::thread_rng` keeps for the thread, which the operating system seeds
//! on first use; the generator panics if the system gives it no seed.

use vstd::prelude::*;
use rand::Rng;

verus! {

/// Tosses a coin with `Rng::gen::<bool>` on `rand::thread_rng()`. Nothing is
/// claimed of the outcome.
#[verifier::external_body]
pub(crate) fn random_bool() -> (heads: bool) {
    rand::thread_rng().gen::<bool>()
}

/// Draws a number with `Rng::gen_range(low..=high)` on `rand::thread_rng()`.
/// That call panics on an empty range, which `requires` rules out; of the
/// number drawn only this is claimed, that it lies in the range, both ends
/// included.
#[verifier::external_body]
pub(crate) fn random_in_range(low: i32, high: i32) -> (drawn: i32)
    requires
        low <= high,
    ensures
        low <= drawn <= high,
{
    rand::thread_rng().gen_range(low..=high)
}

} // verus!
