//! Xoroshiro128+: two words of state, never both zero.
use vstd::prelude::*;

use crate::bytes::{seed_words, u64_from_sl};
use crate::entropy::{fill_from_os, ENTROPY_ATTEMPTS};
use crate::generator::{nth_output, Generator, Rng};
use crate::splitmix::{lemma_expansion_nonzero, SplitMix64Rng};
use crate::SeedError;

verus! {

/// The Xoroshiro128+ generator.
#[derive(Debug, Clone, Copy)]
pub struct Xoroshiro128Rng {
    state: [u64; 2],
}

impl View for Xoroshiro128Rng {
    type V = (u64, u64);

    closed spec fn view(&self) -> (u64, u64) {
        (self.state[0], self.state[1])
    }
}

/// `x` rotated left by `k` bits.
pub open spec fn rotl(x: u64, k: u64) -> u64 {
    (x << k) | (x >> ((64 - k) as u64))
}

fn rotate_left(x: u64, k: u64) -> (r: u64)
    requires
        0 < k < 64,
    ensures
        r == rotl(x, k),
{
    (x << k) | (x >> (64 - k))
}

/// The state after one Xoroshiro128+ transition.
pub open spec fn xoroshiro_step(s: (u64, u64)) -> (u64, u64) {
    let t = s.1 ^ s.0;
    (rotl(s.0, 55) ^ t ^ (t << 14u64), rotl(t, 36))
}

/// The states Xoroshiro128+ may be in: not both words zero.
pub open spec fn xoroshiro_valid(s: (u64, u64)) -> bool {
    !(s.0 == 0 && s.1 == 0)
}

/// The state into which the seed words `w` would be loaded.
pub open spec fn xoroshiro_of(w: Seq<u64>) -> (u64, u64) {
    (w[0], w[1])
}

/// A nonzero state has a nonzero successor.
proof fn lemma_step_valid(s: (u64, u64))
    requires
        xoroshiro_valid(s),
    ensures
        xoroshiro_valid(xoroshiro_step(s)),
{
    let (a, b) = s;
    assert(!(a == 0 && b == 0) ==> !(((a << 55u64) | (a >> 9u64)) ^ (b ^ a) ^ ((b ^ a) << 14u64) == 0
        && (((b ^ a) << 36u64) | ((b ^ a) >> 28u64)) == 0)) by (bit_vector);
}

impl Xoroshiro128Rng {
    /// Creates a generator from entropy drawn from the operating system.
    ///
    /// Each draw is decided by `accept_draw`: a failed read ends the call with
    /// `EntropySourceUnavailable`, and a draw of the forbidden all-zero seed is
    /// rejected and drawn again. The number of draws is bounded by
    /// `ENTROPY_ATTEMPTS`; only when every one of them was all zero does the
    /// call end with `InvalidSeed`.
    pub fn new() -> (r: Result<Self, SeedError>)
        ensures
            r matches Ok(g) ==> xoroshiro_valid(g@),
            r matches Err(e) ==> e == SeedError::EntropySourceUnavailable || e
                == SeedError::InvalidSeed,
    {
        let mut attempt: u32 = 0;
        while attempt < ENTROPY_ATTEMPTS
            decreases ENTROPY_ATTEMPTS - attempt,
        {
            let mut seed = [0u8; 16];
            let read = fill_from_os(&mut seed);
            match Self::accept_draw(read, seed) {
                Some(r) => {
                    return r;
                },
                None => {},
            }
            attempt = attempt + 1;
        }
        Err(SeedError::InvalidSeed)
    }

    /// Decides one entropy draw: `read` is the outcome of reading the entropy
    /// source into `seed`.
    ///
    /// A failed read gives `EntropySourceUnavailable`; a successful read of the
    /// forbidden all-zero seed gives `None`, asking for another draw; any other
    /// successful read gives the generator seeded with `seed`.
    pub fn accept_draw(read: Result<(), SeedError>, seed: [u8; 16]) -> (r: Option<Result<Self, SeedError>>)
        ensures
            read is Err ==> r == Some(Err::<Self, SeedError>(SeedError::EntropySourceUnavailable)),
            read is Ok ==> (r is None <==> !xoroshiro_valid(xoroshiro_of(seed_words(seed@)))),
            read is Ok ==> (r matches Some(x) ==> x matches Ok(g) && g@ == xoroshiro_of(seed_words(seed@))),
    {
        match read {
            Err(_) => Some(Err(SeedError::EntropySourceUnavailable)),
            Ok(()) => match Self::from_seed(seed) {
                Ok(g) => Some(Ok(g)),
                Err(_) => None,
            },
        }
    }

    /// A generator with a fixed nonzero state, for deterministic testing.
    pub fn new_unseeded() -> (r: Self)
        ensures
            r@ == (0x193a6754a8a7d469u64, 0x97830e05113ba7bbu64),
    {
        Xoroshiro128Rng { state: [0x193a6754a8a7d469, 0x97830e05113ba7bb] }
    }

    /// A generator whose state is `seed`; fails when both words are zero.
    pub fn from_seed_u64(seed: [u64; 2]) -> (r: Result<Self, SeedError>)
        ensures
            r is Ok <==> xoroshiro_valid(xoroshiro_of(seed@)),
            r matches Ok(g) ==> g@ == xoroshiro_of(seed@),
            r matches Err(e) ==> e == SeedError::InvalidSeed,
    {
        if seed[0] == 0 && seed[1] == 0 {
            Err(SeedError::InvalidSeed)
        } else {
            Ok(Xoroshiro128Rng { state: seed })
        }
    }

    /// A generator seeded from sixteen bytes: bytes `0..8` are the first word
    /// and bytes `8..16` the second, both little-endian.
    pub fn from_seed(seed: [u8; 16]) -> (r: Result<Self, SeedError>)
        ensures
            r is Ok <==> xoroshiro_valid(xoroshiro_of(seed_words(seed@))),
            r matches Ok(g) ==> g@ == xoroshiro_of(seed_words(seed@)),
            r matches Err(e) ==> e == SeedError::InvalidSeed,
    {
        let s0 = u64_from_sl(&seed[0..8]);
        let s1 = u64_from_sl(&seed[8..16]);
        assert(seed_words(seed@)[0] == s0 && seed_words(seed@)[1] == s1);
        Self::from_seed_u64([s0, s1])
    }

    /// A generator whose two words are the first two draws of a SplitMix64
    /// generator seeded with `seed`; those are never both zero.
    pub fn seed_from_u64(seed: u64) -> (r: Self)
        ensures
            r@ == (nth_output::<SplitMix64Rng>(seed, 0), nth_output::<SplitMix64Rng>(seed, 1)),
            xoroshiro_valid(r@),
    {
        let mut sm = SplitMix64Rng::from_seed_u64(seed);
        let s0 = sm.next_u64();
        let s1 = sm.next_u64();
        proof {
            lemma_expansion_nonzero(seed);
        }
        Xoroshiro128Rng { state: [s0, s1] }
    }
}

impl Generator for Xoroshiro128Rng {
    open spec fn valid(s: (u64, u64)) -> bool {
        xoroshiro_valid(s)
    }

    open spec fn next_state(s: (u64, u64)) -> (u64, u64) {
        xoroshiro_step(s)
    }

    open spec fn output(s: (u64, u64)) -> u64 {
        s.0.wrapping_add(s.1)
    }

    fn next_u64(&mut self) -> (r: u64) {
        proof {
            lemma_step_valid(self@);
        }
        let s0: u64 = self.state[0];
        let mut s1: u64 = self.state[1];
        let result: u64 = s0.wrapping_add(s1);

        s1 = s1 ^ s0;
        self.state[0] = rotate_left(s0, 55) ^ s1 ^ (s1 << 14u64);
        self.state[1] = rotate_left(s1, 36);
        result
    }
}

impl Rng for Xoroshiro128Rng {
}

} // verus!
