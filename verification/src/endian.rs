//! Little-endian conversions between 32-bit words and bytes.

use vstd::prelude::*;

verus! {

/// The four bytes of `x`, least significant first.
pub open spec fn le_bytes32(x: u32) -> Seq<u8> {
    seq![
        (x % 256) as u8,
        (x / 256 % 256) as u8,
        (x / 65536 % 256) as u8,
        (x / 16777216) as u8,
    ]
}

/// The word whose little-endian bytes are `b0`, `b1`, `b2`, `b3`, in that
/// order.
pub open spec fn le_word32(b0: u8, b1: u8, b2: u8, b3: u8) -> u32 {
    (b0 + 256 * b1 + 65536 * b2 + 16777216 * b3) as u32
}

/// Splits a word into its bytes, least significant first.
pub fn word_to_le(x: u32) -> (bytes: [u8; 4])
    ensures
        bytes@ == le_bytes32(x),
{
    [(x % 256) as u8, (x / 256 % 256) as u8, (x / 65536 % 256) as u8, (x / 16777216) as u8]
}

/// Assembles a word from four bytes, least significant first.
pub fn word_from_le(b0: u8, b1: u8, b2: u8, b3: u8) -> (x: u32)
    ensures
        x == le_word32(b0, b1, b2, b3),
{
    let (w0, w1, w2, w3) = (b0 as u32, b1 as u32, b2 as u32, b3 as u32);
    assert((w3 << 24) | (w2 << 16) | (w1 << 8) | w0 == w0 + 256 * w1 + 65536 * w2 + 16777216 * w3)
        by (bit_vector)
        requires
            w0 < 256,
            w1 < 256,
            w2 < 256,
            w3 < 256,
    ;
    (w3 << 24) | (w2 << 16) | (w1 << 8) | w0
}

} // verus!
