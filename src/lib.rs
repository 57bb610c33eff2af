//! Fast, non-cryptographic pseudo-random number generators with reproducible
//! streams: SplitMix64, Xoroshiro128+ and XorShift1024*.
//!
//! Every generator is a state machine. Its contracts are stated over a
//! mathematical model (the generator's view), a transition function on that
//! model and the word that one transition emits.
use vstd::prelude::*;

pub mod bytes;
pub mod entropy;
pub mod generator;
pub mod splitmix;
pub mod xoroshiro;
pub mod xorshift;

pub use bytes::u64_from_sl;
pub use generator::{Generator, JumpableRng, Rng};
pub use splitmix::SplitMix64Rng;
pub use xoroshiro::Xoroshiro128Rng;
pub use xorshift::{XorShift1024Rng, XorShift1024Seed};

verus! {

/// Why a generator could not be constructed.
#[derive(Debug, Clone, Copy, PartialEq, Eq, Structural)]
pub enum SeedError {
    /// The seed is the algorithm's forbidden all-zero pattern.
    InvalidSeed,
    /// The operating system's entropy source could not be read.
    EntropySourceUnavailable,
}

} // verus!
