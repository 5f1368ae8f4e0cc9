//! The cryptographic generator behind the random pattern.

use vstd::prelude::*;
use rand::Rng;
use rand::RngCore;
use rand::SeedableRng;
use rand_chacha::ChaCha20Rng;
use super::PatternError;
use super::PatternGenerator;

verus! {

/// `rand_chacha::ChaCha20Rng`, the generator state. Nothing inside it is
/// visible to the proofs.
#[verifier::external_type_specification]
#[verifier::external_body]
pub struct ExChaCha20Rng(ChaCha20Rng);

/// `rand::Error`, the failure of a random source.
#[verifier::external_type_specification]
#[verifier::external_body]
pub struct ExRandError(rand::Error);

/// Calls `ChaCha20Rng::from_rng` on `rand::rngs::OsRng`: a generator seeded
/// from the entropy source of the operating system, or that source's error.
/// Nothing is claimed of the outcome.
#[verifier::external_body]
pub(crate) fn seed_from_os() -> (seeded: Result<ChaCha20Rng, rand::Error>) {
    ChaCha20Rng::from_rng(rand::rngs::OsRng)
}

/// Calls `RngCore::fill_bytes` on the generator. `rand_core` documents that
/// the whole slice is overwritten with new data; the contract claims only
/// that the slice keeps its length.
#[verifier::external_body]
pub(crate) fn fill_random(rng: &mut ChaCha20Rng, buffer: &mut [u8])
    ensures
        final(buffer)@.len() == old(buffer)@.len(),
{
    rng.fill_bytes(buffer)
}

/// Calls `Rng::gen_range` with the range `0..bound`, which `rand` documents
/// to panic when the range is empty and to sample from within it otherwise.
#[verifier::external_body]
pub(crate) fn random_below(rng: &mut ChaCha20Rng, bound: usize) -> (value: usize)
    requires
        bound > 0,
    ensures
        value < bound,
{
    rng.gen_range(0..bound)
}

/// Turns the outcome of seeding into a generator or the library's error.
pub fn generator_from(seeded: Result<ChaCha20Rng, rand::Error>) -> (generator: Result<
    SecureRandomGenerator,
    PatternError,
>)
    ensures
        generator is Ok <==> seeded is Ok,
        generator matches Ok(g) ==> g.state() == seeded->Ok_0,
        generator matches Err(e) ==> e == PatternError::EntropyUnavailable,
{
    match seeded {
        Ok(rng) => Ok(SecureRandomGenerator { rng }),
        Err(_) => Err(PatternError::EntropyUnavailable),
    }
}

/// A stream of unpredictable bytes, seeded from the operating system.
pub struct SecureRandomGenerator {
    rng: ChaCha20Rng,
}

impl SecureRandomGenerator {
    /// The state of the underlying generator.
    pub closed spec fn state(&self) -> ChaCha20Rng {
        self.rng
    }

    /// A generator with a seed of its own. It fails only when the operating
    /// system cannot supply entropy.
    pub fn new() -> (generator: Result<Self, PatternError>)
        ensures
            generator matches Err(e) ==> e == PatternError::EntropyUnavailable,
    {
        generator_from(seed_from_os())
    }
}

impl PatternGenerator for SecureRandomGenerator {
    fn generate(&mut self, buffer: &mut [u8]) {
        fill_random(&mut self.rng, buffer);
    }

    fn name(&self) -> (name: &'static str)
        ensures
            name@ == "secure_random"@,
    {
        "secure_random"
    }
}

} // verus!
