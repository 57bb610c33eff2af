//! SplitMix64: one word of state, any value allowed.
use vstd::prelude::*;

use crate::bytes::{le_word, u64_from_sl};
use crate::entropy::fill_from_os;
use crate::generator::{nth_output, Generator, Rng};
use crate::SeedError;

verus! {

/// Added to the state on every draw.
pub const SPLITMIX_GAMMA: u64 = 0x9E3779B97F4A7C15;

/// The SplitMix64 generator.
#[derive(Debug, Clone, Copy)]
pub struct SplitMix64Rng {
    state: u64,
}

impl View for SplitMix64Rng {
    type V = u64;

    closed spec fn view(&self) -> u64 {
        self.state
    }
}

/// The output mixing function applied to the advanced state.
pub open spec fn splitmix_mix(s: u64) -> u64 {
    let z1 = (s ^ (s >> 30u64)).wrapping_mul(0xBF58476D1CE4E5B9);
    let z2 = (z1 ^ (z1 >> 27u64)).wrapping_mul(0x94D049BB133111EB);
    z2 ^ (z2 >> 31u64)
}

impl SplitMix64Rng {
    /// Creates a generator seeded with eight bytes from the operating system's
    /// entropy source.
    pub fn new() -> (r: Result<Self, SeedError>)
        ensures
            r matches Err(e) ==> e == SeedError::EntropySourceUnavailable,
    {
        let mut seed = [0u8; 8];
        match fill_from_os(&mut seed) {
            Ok(()) => Ok(Self::from_seed(seed)),
            Err(e) => Err(e),
        }
    }

    /// A generator whose state is the little-endian word `seed`.
    pub fn from_seed(seed: [u8; 8]) -> (r: Self)
        ensures
            r@ == le_word(seed@),
    {
        Self::from_seed_u64(u64_from_sl(&seed))
    }

    /// A generator whose state is `seed`; every value is allowed.
    pub fn from_seed_u64(seed: u64) -> (r: Self)
        ensures
            r@ == seed,
    {
        SplitMix64Rng { state: seed }
    }
}

impl Generator for SplitMix64Rng {
    open spec fn valid(s: u64) -> bool {
        true
    }

    open spec fn next_state(s: u64) -> u64 {
        s.wrapping_add(SPLITMIX_GAMMA)
    }

    open spec fn output(s: u64) -> u64 {
        splitmix_mix(s.wrapping_add(SPLITMIX_GAMMA))
    }

    fn next_u64(&mut self) -> (r: u64) {
        self.state = self.state.wrapping_add(SPLITMIX_GAMMA);
        let mut z: u64 = self.state;
        z = (z ^ (z >> 30u64)).wrapping_mul(0xBF58476D1CE4E5B9);
        z = (z ^ (z >> 27u64)).wrapping_mul(0x94D049BB133111EB);
        z ^ (z >> 31u64)
    }
}

impl Rng for SplitMix64Rng {
}

/// The mixing function sends only zero to zero.
pub proof fn lemma_mix_zero(s: u64)
    ensures
        splitmix_mix(s) == 0 <==> s == 0,
{
    let z1 = (s ^ (s >> 30u64)).wrapping_mul(0xBF58476D1CE4E5B9);
    let z2 = (z1 ^ (z1 >> 27u64)).wrapping_mul(0x94D049BB133111EB);
    assert(z2 ^ (z2 >> 31u64) == 0 <==> z2 == 0) by (bit_vector);
    assert((z1 ^ (z1 >> 27u64)).wrapping_mul(0x94D049BB133111EB) == 0 <==> z1 == 0) by (bit_vector);
    assert((s ^ (s >> 30u64)).wrapping_mul(0xBF58476D1CE4E5B9) == 0 <==> s == 0) by (bit_vector);
}

/// The first two words drawn from a SplitMix64 generator are never both zero,
/// whatever its seed: a seed expanded through it is never all zero.
pub proof fn lemma_expansion_nonzero(seed: u64)
    ensures
        nth_output::<SplitMix64Rng>(seed, 0) != 0 || nth_output::<SplitMix64Rng>(seed, 1) != 0,
{
    let s1 = seed.wrapping_add(SPLITMIX_GAMMA);
    let s2 = s1.wrapping_add(SPLITMIX_GAMMA);
    lemma_mix_zero(s1);
    lemma_mix_zero(s2);
    assert(s1 == 0 ==> s2 != 0) by (bit_vector)
        requires
            s2 == s1.wrapping_add(0x9E3779B97F4A7C15u64),
    ;
}

} // verus!
