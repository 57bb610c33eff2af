//! XorShift1024*: sixteen words of state, never all zero, and a pointer that
//! moves one place on every draw.
use vstd::prelude::*;

use crate::bytes::{seed_words, u64_from_sl};
use crate::entropy::{fill_from_os, ENTROPY_ATTEMPTS};
use crate::generator::{advance, nth_output, Generator, Rng};
use crate::splitmix::{lemma_expansion_nonzero, SplitMix64Rng};
use crate::SeedError;

verus! {

/// The multiplier applied to the new word to form the output.
pub const XORSHIFT_MULTIPLIER: u64 = 1181783497276652981;

/// The XorShift1024* generator.
#[derive(Debug, Clone, Copy)]
pub struct XorShift1024Rng {
    state: [u64; 16],
    pointer: usize,
}

impl View for XorShift1024Rng {
    /// The sixteen words and the pointer.
    type V = (Seq<u64>, int);

    closed spec fn view(&self) -> (Seq<u64>, int) {
        (self.state@, self.pointer as int)
    }
}

/// Whether the sixteen words `w` are not all zero.
pub open spec fn any_nonzero(w: Seq<u64>) -> bool {
    exists|i: int| 0 <= i < 16 && #[trigger] w[i] != 0
}

/// The states XorShift1024* may be in.
pub open spec fn xorshift_valid(s: (Seq<u64>, int)) -> bool {
    &&& s.0.len() == 16
    &&& 0 <= s.1 < 16
    &&& any_nonzero(s.0)
}

/// The word written at the new pointer by a draw from state `s`.
pub open spec fn xorshift_word(s: (Seq<u64>, int)) -> u64 {
    let s0 = s.0[s.1];
    let s1 = s.0[(s.1 + 1) % 16];
    let t = s1 ^ (s1 << 31u64);
    t ^ s0 ^ (t >> 11u64) ^ (s0 >> 30u64)
}

/// The state after one XorShift1024* transition.
pub open spec fn xorshift_step(s: (Seq<u64>, int)) -> (Seq<u64>, int) {
    let p = (s.1 + 1) % 16;
    (s.0.update(p, xorshift_word(s)), p)
}

/// A valid state has a valid successor.
proof fn lemma_step_valid(s: (Seq<u64>, int))
    requires
        xorshift_valid(s),
    ensures
        xorshift_valid(xorshift_step(s)),
{
    let p = (s.1 + 1) % 16;
    let n = xorshift_step(s).0;
    if !any_nonzero(n) {
        let s0 = s.0[s.1];
        let s1 = s.0[p];
        assert(n[s.1] == 0);
        assert(n[p] == 0);
        assert(s0 == 0 && (s1 ^ (s1 << 31u64)) ^ s0 ^ ((s1 ^ (s1 << 31u64)) >> 11u64) ^ (s0 >> 30u64)
            == 0 ==> s1 == 0) by (bit_vector);
        assert(!any_nonzero(s.0)) by {
            assert forall|i: int| 0 <= i < 16 implies s.0[i] == 0 by {
                assert(n[i] == 0);
            }
        }
    }
}

impl XorShift1024Rng {
    /// Creates a generator from entropy drawn from the operating system.
    ///
    /// Each draw is decided by `accept_draw`: a failed read ends the call with
    /// `EntropySourceUnavailable`, and a draw of the forbidden all-zero seed is
    /// rejected and drawn again. The number of draws is bounded by
    /// `ENTROPY_ATTEMPTS`; only when every one of them was all zero does the
    /// call end with `InvalidSeed`.
    pub fn new() -> (r: Result<Self, SeedError>)
        ensures
            r matches Ok(g) ==> xorshift_valid(g@) && g@.1 == 0,
            r matches Err(e) ==> e == SeedError::EntropySourceUnavailable || e
                == SeedError::InvalidSeed,
    {
        let mut attempt: u32 = 0;
        while attempt < ENTROPY_ATTEMPTS
            decreases ENTROPY_ATTEMPTS - attempt,
        {
            let mut seed = XorShift1024Seed::default();
            let read = fill_from_os(&mut seed.0);
            match Self::accept_draw(read, seed) {
                Some(r) => {
                    return r;
                },
                None => {},
            }
            attempt = attempt + 1;
        }
        Err(SeedError::InvalidSeed)
    }

    /// Decides one entropy draw: `read` is the outcome of reading the entropy
    /// source into `seed`.
    ///
    /// A failed read gives `EntropySourceUnavailable`; a successful read of the
    /// forbidden all-zero seed gives `None`, asking for another draw; any other
    /// successful read gives the generator seeded with `seed`.
    pub fn accept_draw(read: Result<(), SeedError>, seed: XorShift1024Seed) -> (r: Option<Result<Self, SeedError>>)
        ensures
            read is Err ==> r == Some(Err::<Self, SeedError>(SeedError::EntropySourceUnavailable)),
            read is Ok ==> (r is None <==> !any_nonzero(seed_words(seed.0@))),
            read is Ok ==> (r matches Some(x) ==> x matches Ok(g) && g@ == (seed_words(seed.0@), 0int)),
    {
        match read {
            Err(_) => Some(Err(SeedError::EntropySourceUnavailable)),
            Ok(()) => match Self::from_seed(seed) {
                Ok(g) => Some(Ok(g)),
                Err(_) => None,
            },
        }
    }

    /// A generator whose words are `seed` and whose pointer is zero; fails
    /// when every word is zero.
    pub fn from_seed_u64(seed: [u64; 16]) -> (r: Result<Self, SeedError>)
        ensures
            r is Ok <==> any_nonzero(seed@),
            r matches Ok(g) ==> g@ == (seed@, 0int),
            r matches Err(e) ==> e == SeedError::InvalidSeed,
    {
        let mut i: usize = 0;
        while i < 16
            invariant
                i <= 16,
                forall|j: int| 0 <= j < i ==> seed@[j] == 0,
            decreases 16 - i,
        {
            if seed[i] != 0 {
                return Ok(XorShift1024Rng { state: seed, pointer: 0 });
            }
            i = i + 1;
        }
        Err(SeedError::InvalidSeed)
    }

    /// A generator seeded from 128 bytes: sixteen consecutive little-endian
    /// words; fails when every byte is zero.
    pub fn from_seed(seed: XorShift1024Seed) -> (r: Result<Self, SeedError>)
        ensures
            r is Ok <==> any_nonzero(seed_words(seed.0@)),
            r matches Ok(g) ==> g@ == (seed_words(seed.0@), 0int),
            r matches Err(e) ==> e == SeedError::InvalidSeed,
    {
        let mut words = [0u64; 16];
        let mut k: usize = 0;
        while k < 16
            invariant
                k <= 16,
                forall|j: int| 0 <= j < k ==> words@[j] == #[trigger] seed_words(seed.0@)[j],
            decreases 16 - k,
        {
            words[k] = u64_from_sl(&seed.0[8 * k..8 * k + 8]);
            k = k + 1;
        }
        assert(words@ =~= seed_words(seed.0@));
        Self::from_seed_u64(words)
    }

    /// A generator whose words are the first sixteen draws of a SplitMix64
    /// generator seeded with `seed`, and whose pointer is zero; those words are
    /// never all zero.
    pub fn seed_from_u64(seed: u64) -> (r: Self)
        ensures
            r@ == (Seq::new(16, |k: int| nth_output::<SplitMix64Rng>(seed, k as nat)), 0int),
            xorshift_valid(r@),
    {
        let ghost w = Seq::new(16, |k: int| nth_output::<SplitMix64Rng>(seed, k as nat));
        let mut sm = SplitMix64Rng::from_seed_u64(seed);
        let mut words = [0u64; 16];
        let mut k: usize = 0;
        while k < 16
            invariant
                k <= 16,
                sm@ == advance::<SplitMix64Rng>(seed, k as nat),
                forall|j: int|
                    0 <= j < k ==> #[trigger] words@[j] == nth_output::<SplitMix64Rng>(seed, j as nat),
            decreases 16 - k,
        {
            words[k] = sm.next_u64();
            k = k + 1;
        }
        assert(words@ =~= w);
        proof {
            lemma_expansion_nonzero(seed);
            assert(w[0] != 0 || w[1] != 0);
        }
        XorShift1024Rng { state: words, pointer: 0 }
    }
}

impl Generator for XorShift1024Rng {
    open spec fn valid(s: (Seq<u64>, int)) -> bool {
        xorshift_valid(s)
    }

    open spec fn next_state(s: (Seq<u64>, int)) -> (Seq<u64>, int) {
        xorshift_step(s)
    }

    open spec fn output(s: (Seq<u64>, int)) -> u64 {
        xorshift_word(s).wrapping_mul(XORSHIFT_MULTIPLIER)
    }

    fn next_u64(&mut self) -> (r: u64) {
        proof {
            lemma_step_valid(self@);
        }
        let s0: u64 = self.state[self.pointer];
        self.pointer = (self.pointer + 1) % 16;
        let mut s1: u64 = self.state[self.pointer];
        s1 = s1 ^ (s1 << 31u64);
        self.state[self.pointer] = s1 ^ s0 ^ (s1 >> 11u64) ^ (s0 >> 30u64);
        self.state[self.pointer].wrapping_mul(XORSHIFT_MULTIPLIER)
    }
}

impl Rng for XorShift1024Rng {
}

/// The 128 seed bytes of a XorShift1024* generator.
pub struct XorShift1024Seed(pub [u8; 128]);

impl Default for XorShift1024Seed {
    fn default() -> (r: Self)
        ensures
            forall|i: int| 0 <= i < 128 ==> r.0@[i] == 0,
    {
        XorShift1024Seed([0u8; 128])
    }
}

} // verus!
