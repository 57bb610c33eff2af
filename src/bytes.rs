//! Little-endian conversion between bytes and 64-bit words.
use vstd::prelude::*;

verus! {

/// Byte `k` of `w`, counting from the least significant one.
pub open spec fn byte_of(w: u64, k: int) -> u8 {
    ((w >> ((8 * k) as u64)) & 0xffu64) as u8
}

/// The bytes of `words`, each word least significant byte first.
pub open spec fn le_bytes(words: Seq<u64>) -> Seq<u8> {
    Seq::new(8 * words.len(), |i: int| byte_of(words[i / 8], i % 8))
}

/// The word whose little-endian bytes are `b[0..8]`.
pub open spec fn le_word(b: Seq<u8>) -> u64 {
    (b[0] as u64) | ((b[1] as u64) << 8u64) | ((b[2] as u64) << 16u64) | ((b[3] as u64) << 24u64)
        | ((b[4] as u64) << 32u64) | ((b[5] as u64) << 40u64) | ((b[6] as u64) << 48u64) | ((
    b[7] as u64) << 56u64)
}

/// The consecutive little-endian words of `b`; a trailing partial word is ignored.
pub open spec fn seed_words(b: Seq<u8>) -> Seq<u64> {
    Seq::new(b.len() / 8, |k: int| le_word(b.subrange(8 * k, 8 * k + 8)))
}

/// Reads the little-endian word held in the first eight bytes of `s`.
pub fn u64_from_sl(s: &[u8]) -> (r: u64)
    requires
        s@.len() >= 8,
    ensures
        r == le_word(s@),
{
    (s[0] as u64) | ((s[1] as u64) << 8u64) | ((s[2] as u64) << 16u64) | ((s[3] as u64) << 24u64)
        | ((s[4] as u64) << 32u64) | ((s[5] as u64) << 40u64) | ((s[6] as u64) << 48u64) | ((
    s[7] as u64) << 56u64)
}

/// Shifting a word right by `8 * k` and truncating to a byte gives byte `k`.
pub proof fn lemma_low_byte(w: u64, k: int)
    requires
        0 <= k < 8,
    ensures
        (w >> ((8 * k) as u64)) as u8 == byte_of(w, k),
        k < 7 ==> (w >> ((8 * k) as u64)) >> 8u64 == w >> ((8 * (k + 1)) as u64),
{
    let s = (8 * k) as u64;
    assert((w >> s) as u8 == ((w >> s) & 0xffu64) as u8) by (bit_vector);
    assert(s <= 48 ==> (w >> s) >> 8u64 == w >> ((s + 8) as u64)) by (bit_vector);
}

} // verus!
