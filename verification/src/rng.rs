//! Drawing random numbers from an injected generator.

use vstd::prelude::*;

verus! {

/// The injected random number generator. Its state is not visible here.
#[verifier::external_type_specification]
#[verifier::external_body]
pub struct ExRng(fastrand::Rng);

/// Draws the next 64-bit number from the generator.
///
/// Trusted: `fastrand::Rng::u64` over the full range, which returns and
/// never panics there. Nothing is claimed of the number: it may be any
/// `u64`, and two draws need not differ.
#[verifier::external_body]
pub(crate) fn next_u64(rng: &fastrand::Rng) -> (n: u64) {
    rng.u64(..)
}

} // verus!
