//! Serial words as pairs of 16-bit halves.
//!
//! The handshake speaks in 32-bit words whose halves carry a key and its
//! complement. The contracts of this crate reason about such words with plain
//! arithmetic; the executable code uses shifts and masks, and the lemmas here
//! show that both say the same.

use vstd::prelude::*;

verus! {

/// The low 16 bits of a word.
pub open spec fn low_half(word: u32) -> u16 {
    (word % 0x1_0000) as u16
}

/// The high 16 bits of a word.
pub open spec fn high_half(word: u32) -> u16 {
    (word / 0x1_0000) as u16
}

/// The word with the given halves.
pub open spec fn pack(low: u16, high: u16) -> u32 {
    (high * 0x1_0000 + low) as u32
}

/// The half with every bit flipped.
pub open spec fn complement(half: u16) -> u16 {
    (0xFFFF - half) as u16
}

/// The low half is the word truncated to 16 bits, or masked; the high half is the
/// word shifted down by 16 bits.
pub proof fn lemma_halves_in_bits(word: u32)
    ensures
        low_half(word) == word as u16,
        low_half(word) == word & 0xFFFF,
        high_half(word) == (word >> 16) as u16,
        high_half(word) == word >> 16,
{
    assert(word as u16 == word % 0x1_0000) by (bit_vector);
    assert(word & 0xFFFF == word % 0x1_0000) by (bit_vector);
    assert((word >> 16) as u16 == word / 0x1_0000) by (bit_vector);
    assert(word >> 16 == word / 0x1_0000) by (bit_vector);
}

/// A word is packed by shifting the high half up by 16 bits beside the low half.
pub proof fn lemma_pack_in_bits(low: u16, high: u16)
    ensures
        pack(low, high) == (low as u32) | ((high as u32) << 16),
{
    assert((low as u32) | ((high as u32) << 16) == high * 0x1_0000 + low) by (bit_vector);
}

/// The complement is the bitwise negation.
pub proof fn lemma_complement_in_bits(half: u16)
    ensures
        complement(half) == !half,
{
    assert(!half == 0xFFFF - half) by (bit_vector);
}

/// Splitting and packing undo each other, and so does flipping twice.
pub proof fn lemma_halves_round_trip(word: u32, low: u16, high: u16)
    ensures
        pack(low_half(word), high_half(word)) == word,
        low_half(pack(low, high)) == low,
        high_half(pack(low, high)) == high,
        complement(complement(low)) == low,
{
}

/// Splits a word into its low and high halves.
pub fn halves(word: u32) -> (parts: (u16, u16))
    ensures
        parts.0 == low_half(word),
        parts.1 == high_half(word),
{
    proof {
        lemma_halves_in_bits(word);
    }
    (word as u16, (word >> 16) as u16)
}

/// Joins two halves into a word.
pub fn join(low: u16, high: u16) -> (word: u32)
    ensures
        word == pack(low, high),
{
    proof {
        lemma_pack_in_bits(low, high);
    }
    (low as u32) | ((high as u32) << 16)
}

/// Flips every bit of a half.
pub fn flip(half: u16) -> (flipped: u16)
    ensures
        flipped == complement(half),
{
    proof {
        lemma_complement_in_bits(half);
    }
    !half
}

} // verus!
