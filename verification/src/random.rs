//! The node's random source.

use rand::SeedableRng;
use rand_chacha::ChaCha20Rng;
use vstd::prelude::*;

verus! {

/// rand_chacha's `ChaCha20Rng`. Nothing is read from it here: the reactor holds
/// the generator and lends it to the subsystem that handles an event.
#[verifier::external_type_specification]
#[verifier::external_body]
pub struct ExChaCha20Rng(ChaCha20Rng);

/// Calls rand's `SeedableRng::from_entropy` for `ChaCha20Rng`: a generator
/// seeded from the operating system.
///
/// Nothing is claimed of the generator: its seed differs from call to call.
/// The call panics where the operating system can give no entropy.
#[verifier::external_body]
pub(crate) fn from_entropy() -> ChaCha20Rng {
    ChaCha20Rng::from_entropy()
}

} // verus!
