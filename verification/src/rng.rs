//! The one entry point to the random number generator.

use vstd::prelude::*;

verus! {

/// Relies on rand::random::<u32>: one fresh draw from the thread-local
/// generator, uniform over all 32-bit values. Nothing can be promised of a
/// single draw, so no contract is stated; verified callers decide from the
/// returned value alone.
#[verifier::external_body]
pub(crate) fn random_u32() -> u32 {
    rand::random::<u32>()
}

} // verus!
