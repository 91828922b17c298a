//! Four-character tags: four bytes packed into one 32-bit word.

use vstd::prelude::*;

verus! {

/// The word whose bytes are, from the least significant one up, `b0`, `b1`,
/// `b2` and `b3`.
pub open spec fn packed_word(b0: u8, b1: u8, b2: u8, b3: u8) -> int {
    b0 + b1 * 0x100 + b2 * 0x1_0000 + b3 * 0x100_0000
}

/// Packs four bytes with the first one most significant.
#[allow(non_snake_case)]
pub fn MKBETAG(a: u8, b: u8, c: u8, d: u8) -> (tag: u32)
    ensures
        tag == packed_word(d, c, b, a),
{
    assert((d as u32) | ((c as u32) << 8) | ((b as u32) << 16) | ((a as u32) << 24) == d + c
        * 0x100 + b * 0x1_0000 + a * 0x100_0000) by (bit_vector);
    (d as u32) | ((c as u32) << 8) | ((b as u32) << 16) | ((a as u32) << 24)
}

/// Packs four bytes with the first one least significant.
#[allow(non_snake_case)]
pub fn MKTAG(a: u8, b: u8, c: u8, d: u8) -> (tag: u32)
    ensures
        tag == packed_word(a, b, c, d),
{
    assert((a as u32) | ((b as u32) << 8) | ((c as u32) << 16) | ((d as u32) << 24) == a + b
        * 0x100 + c * 0x1_0000 + d * 0x100_0000) by (bit_vector);
    (a as u32) | ((b as u32) << 8) | ((c as u32) << 16) | ((d as u32) << 24)
}

/// A packed word fits in 32 bits, and each of the four bytes can be read
/// back from it.
pub proof fn lemma_packed_word_bytes(b0: u8, b1: u8, b2: u8, b3: u8)
    by (bit_vector)
    ensures
        0 <= packed_word(b0, b1, b2, b3) <= u32::MAX,
        packed_word(b0, b1, b2, b3) % 0x100 == b0,
        packed_word(b0, b1, b2, b3) / 0x100 % 0x100 == b1,
        packed_word(b0, b1, b2, b3) / 0x1_0000 % 0x100 == b2,
        packed_word(b0, b1, b2, b3) / 0x100_0000 == b3,
{
}

/// Two packings give the same word only where they pack the same bytes.
pub proof fn lemma_packed_word_injective(
    a0: u8,
    a1: u8,
    a2: u8,
    a3: u8,
    b0: u8,
    b1: u8,
    b2: u8,
    b3: u8,
)
    requires
        packed_word(a0, a1, a2, a3) == packed_word(b0, b1, b2, b3),
    ensures
        a0 == b0,
        a1 == b1,
        a2 == b2,
        a3 == b3,
{
    lemma_packed_word_bytes(a0, a1, a2, a3);
    lemma_packed_word_bytes(b0, b1, b2, b3);
}

} // verus!
