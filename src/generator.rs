//! The contract that every generator meets, and what follows from it.
use vstd::prelude::*;

use crate::bytes::{byte_of, le_bytes, lemma_low_byte};

verus! {

/// A generator: a state machine that emits one 64-bit word per transition.
///
/// `valid` is the set of states the generator may be in, `next_state` the
/// transition and `output` the word a transition emits, all on the view.
pub trait Generator: Sized + View {
    /// The states a generator may be in.
    spec fn valid(s: Self::V) -> bool;

    /// The state after one draw.
    spec fn next_state(s: Self::V) -> Self::V;

    /// The word emitted by a draw from state `s`.
    spec fn output(s: Self::V) -> u64;

    /// Draws one 64-bit word.
    fn next_u64(&mut self) -> (r: u64)
        requires
            Self::valid(old(self)@),
        ensures
            Self::valid(final(self)@),
            final(self)@ == Self::next_state(old(self)@),
            r == Self::output(old(self)@),
    ;
}

/// What every generator offers on top of its 64-bit draw.
pub trait Rng: Generator {
    /// Draws one 64-bit word and keeps its low 32 bits.
    fn next_u32(&mut self) -> (r: u32)
        requires
            Self::valid(old(self)@),
        ensures
            Self::valid(final(self)@),
            final(self)@ == Self::next_state(old(self)@),
            r == Self::output(old(self)@) as u32,
    {
        self.next_u64() as u32
    }

    /// Fills `dest` with the little-endian bytes of `words_for(dest.len())`
    /// successive draws; the bytes of the last draw that do not fit are dropped.
    fn fill_bytes(&mut self, dest: &mut [u8])
        requires
            Self::valid(old(self)@),
        ensures
            Self::valid(final(self)@),
            final(self)@ == advance::<Self>(old(self)@, words_for(old(dest)@.len())),
            final(dest)@ == le_bytes(stream::<Self>(old(self)@, words_for(old(dest)@.len()))).take(
                old(dest)@.len() as int,
            ),
    {
        let ghost s0 = self@;
        let n = dest.len();
        let mut i: usize = 0;
        let mut v: u64 = 0;
        while i < n
            invariant
                i <= n,
                n == old(dest)@.len(),
                dest@.len() == n,
                Self::valid(self@),
                self@ == advance::<Self>(s0, words_for(i as nat)),
                i % 8 != 0 ==> v == nth_output::<Self>(s0, (i / 8) as nat) >> ((8 * (i % 8)) as u64),
                forall|j: int|
                    0 <= j < i ==> #[trigger] dest@[j] == byte_of(
                        nth_output::<Self>(s0, (j / 8) as nat),
                        j % 8,
                    ),
            decreases n - i,
        {
            if i % 8 == 0 {
                v = self.next_u64();
                assert(words_for((i + 1) as nat) == words_for(i as nat) + 1);
                assert(v == nth_output::<Self>(s0, (i / 8) as nat) >> 0u64) by {
                    let w = nth_output::<Self>(s0, (i / 8) as nat);
                    assert(w >> 0u64 == w) by (bit_vector);
                }
            } else {
                assert(words_for((i + 1) as nat) == words_for(i as nat));
            }
            proof {
                lemma_low_byte(nth_output::<Self>(s0, (i / 8) as nat), (i % 8) as int);
            }
            dest[i] = v as u8;
            v = v >> 8u64;
            i = i + 1;
        }
        let ghost words = stream::<Self>(s0, words_for(n as nat));
        assert(final(dest)@ =~= le_bytes(words).take(n as int)) by {
            assert forall|j: int| 0 <= j < n implies #[trigger] le_bytes(words)[j] == dest@[j] by {
                assert(j / 8 < words_for(n as nat));
            }
        }
    }
}

/// A generator that can be moved far ahead in its stream, so that several
/// consumers each get a sub-stream of their own.
///
/// How far `jump` moves is a property of each algorithm: it is meant to be the
/// square root of the generator's period.
pub trait JumpableRng: Rng {
    /// Jumps ahead in the sequence and returns the jumped generator.
    fn jump(&mut self) -> Self;
}

/// Number of 64-bit draws that give at least `n` bytes.
pub open spec fn words_for(n: nat) -> nat {
    (n + 7) / 8
}

/// The state reached from `s` after `k` draws.
pub open spec fn advance<G: Generator>(s: G::V, k: nat) -> G::V
    decreases k,
{
    if k == 0 {
        s
    } else {
        G::next_state(advance::<G>(s, (k - 1) as nat))
    }
}

/// The word emitted by draw number `k` (from zero) from state `s`.
pub open spec fn nth_output<G: Generator>(s: G::V, k: nat) -> u64 {
    G::output(advance::<G>(s, k))
}

/// The first `n` words drawn from state `s`.
pub open spec fn stream<G: Generator>(s: G::V, n: nat) -> Seq<u64> {
    Seq::new(n, |k: int| nth_output::<G>(s, k as nat))
}

} // verus!

verus! {

/// Determinism: two generators of one algorithm in the same state reach the
/// same state and draw the same words, for any number of draws.
pub proof fn lemma_determinism<G: Generator>(a: G::V, b: G::V, n: nat)
    requires
        a == b,
    ensures
        advance::<G>(a, n) == advance::<G>(b, n),
        stream::<G>(a, n) == stream::<G>(b, n),
{
}

/// Drawing `n + m` words is drawing `n` words and then `m` more from the state
/// reached: how the draws are grouped into calls does not change the stream.
pub proof fn lemma_stream_split<G: Generator>(s: G::V, n: nat, m: nat)
    ensures
        advance::<G>(s, n + m) == advance::<G>(advance::<G>(s, n), m),
        stream::<G>(s, n + m) == stream::<G>(s, n) + stream::<G>(advance::<G>(s, n), m),
    decreases m,
{
    if m > 0 {
        lemma_stream_split::<G>(s, n, (m - 1) as nat);
    }
    assert forall|k: nat| k < m implies advance::<G>(s, n + k) == advance::<G>(
        advance::<G>(s, n),
        k,
    ) by {
        lemma_stream_split::<G>(s, n, k);
    }
    assert(stream::<G>(s, n + m) =~= stream::<G>(s, n) + stream::<G>(advance::<G>(s, n), m));
}

} // verus!
