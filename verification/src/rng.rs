//! Trusted wrappers around the `rand` crate. Everything the games
//! draw at random comes through these two functions; the verified
//! code states only what holds of every possible outcome.

use vstd::prelude::*;

verus! {

/// Relies on rand's `Rng::gen_range` on `lo..hi`: the documentation
/// promises a value in the half-open range, panicking only when the
/// range is empty, which the precondition rules out.
#[verifier::external_body]
pub(crate) fn random_in_range(lo: i32, hi: i32) -> (r: i32)
    requires
        lo < hi,
    ensures
        lo <= r < hi,
{
    rand::Rng::gen_range(&mut rand::thread_rng(), lo..hi)
}

/// Relies on rand's `Rng::gen` at type `bool`: a coin flip, of whose
/// outcome nothing is promised.
#[verifier::external_body]
pub(crate) fn random_flip() -> bool {
    rand::Rng::gen::<bool>(&mut rand::thread_rng())
}

} // verus!
