//! Trusted boundary around the pseudo-random number generators.
//!
//! The client seeds one ChaCha generator (cryptographic, to spread
//! independent seeds) and derives from it one 64-bit seed per worker; each
//! worker owns a fast Xoshiro generator built from its seed.  Nothing is
//! assumed about the values the generators produce: every contract downstream
//! holds for arbitrary outputs.

use vstd::prelude::*;

verus! {

#[verifier::external_type_specification]
#[verifier::external_body]
pub struct ExXoshiro256PlusPlus(rand_xoshiro::Xoshiro256PlusPlus);

#[verifier::external_type_specification]
#[verifier::external_body]
pub struct ExChaCha12Rng(rand_chacha::ChaCha12Rng);

#[verifier::external_type_specification]
#[verifier::external_body]
pub struct ExRandCoreError(rand_chacha::rand_core::Error);

/// Relies on `SeedableRng::seed_from_u64` for `Xoshiro256PlusPlus`.
#[verifier::external_body]
pub(crate) fn xoshiro_from_seed(seed: u64) -> rand_xoshiro::Xoshiro256PlusPlus {
    <rand_xoshiro::Xoshiro256PlusPlus as rand_xoshiro::rand_core::SeedableRng>::seed_from_u64(seed)
}

/// Relies on `Clone` for `Xoshiro256PlusPlus`: a generator is cloned at the
/// top of each minute, so one minute's draws do not disturb the next's.
#[verifier::external_body]
pub(crate) fn xoshiro_clone(rng: &rand_xoshiro::Xoshiro256PlusPlus) -> rand_xoshiro::Xoshiro256PlusPlus {
    rng.clone()
}

/// Relies on `RngCore::next_u64` for `Xoshiro256PlusPlus`; nothing is assumed
/// about the value.
#[verifier::external_body]
pub(crate) fn xoshiro_next_u64(rng: &mut rand_xoshiro::Xoshiro256PlusPlus) -> u64 {
    rand_xoshiro::rand_core::RngCore::next_u64(rng)
}

/// Relies on `SeedableRng::seed_from_u64` for `ChaCha12Rng`.
#[verifier::external_body]
pub(crate) fn chacha_from_seed(seed: u64) -> rand_chacha::ChaCha12Rng {
    <rand_chacha::ChaCha12Rng as rand_chacha::rand_core::SeedableRng>::seed_from_u64(seed)
}

/// Relies on `SeedableRng::from_rng` over `OsRng` for `ChaCha12Rng`: a
/// generator seeded from system entropy, or the entropy source's error (this
/// form returns the failure instead of panicking on it).
#[verifier::external_body]
pub(crate) fn chacha_from_entropy() -> Result<
    rand_chacha::ChaCha12Rng,
    rand_chacha::rand_core::Error,
> {
    <rand_chacha::ChaCha12Rng as rand_chacha::rand_core::SeedableRng>::from_rng(
        rand_chacha::rand_core::OsRng,
    )
}

/// Relies on `RngCore::next_u64` for `ChaCha12Rng`; nothing is assumed about
/// the value.
#[verifier::external_body]
pub(crate) fn chacha_next_u64(rng: &mut rand_chacha::ChaCha12Rng) -> u64 {
    rand_chacha::rand_core::RngCore::next_u64(rng)
}

} // verus!
