//! The process-wide random source behind the random instruction.

use vstd::prelude::*;
use rand::Rng;

verus! {

/// Relies on rand::thread_rng and rand::Rng::gen: one uniformly distributed
/// byte from the process-wide generator. The value depends on the generator's
/// state, so nothing is promised of it; callers state what holds of every
/// outcome.
#[verifier::external_body]
pub(crate) fn random_byte() -> u8 {
    rand::thread_rng().gen()
}

} // verus!
