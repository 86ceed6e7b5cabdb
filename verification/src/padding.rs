//! Message padding: extends a message to a whole number of 64-byte blocks.

use vstd::prelude::*;

use crate::endian::{le_bytes32, word_to_le};

verus! {

/// The length of a message of `len` bytes, counted in bits and reduced
/// modulo `2^64`.
pub open spec fn bit_length(len: nat) -> u64 {
    ((8 * len) % 0x1_0000_0000_0000_0000) as u64
}

/// How many zero bytes follow the `0x80` marker: the least number that
/// brings a message of `len` bytes, marker included, to 56 bytes past a
/// block boundary.
pub open spec fn zero_fill(len: nat) -> nat {
    ((119 - len % 64) % 64) as nat
}

/// The eight bytes that close the padding: the bit length as two 32-bit
/// little-endian words, low-order word first.
pub open spec fn length_field(len: nat) -> Seq<u8> {
    le_bytes32((bit_length(len) % 0x1_0000_0000) as u32) + le_bytes32(
        (bit_length(len) / 0x1_0000_0000) as u32,
    )
}

/// The padded form of `message`: the message, one byte `0x80`, the zero
/// fill, and the length field.
pub open spec fn padded(message: Seq<u8>) -> Seq<u8> {
    message + seq![0x80u8] + Seq::new(zero_fill(message.len()), |i: int| 0u8) + length_field(
        message.len(),
    )
}

/// The zero fill is the least count that leaves room for exactly the length
/// field before the next block boundary.
pub proof fn lemma_zero_fill_is_least(len: nat, count: nat)
    ensures
        zero_fill(len) < 64,
        (len + 1 + zero_fill(len)) % 64 == 56,
        (len + 1 + count) % 64 == 56 ==> zero_fill(len) <= count,
{
    let r = len % 64;
    let fill = zero_fill(len);
    assert(fill == if r <= 55 { 55 - r } else { 119 - r });
    assert(len + 1 + fill == 64 * (len / 64 + if r <= 55 { 0int } else { 1int }) + 56);
    if (len + 1 + count) % 64 == 56 {
        let d = (len + 1 + count) / 64 - len / 64;
        assert(r + 1 + count == 64 * d + 56);
        assert(count >= fill) by {
            if r <= 55 {
                assert(d >= 0);
            } else {
                assert(d >= 1);
            }
        }
    }
}

/// A padded message fills whole 512-bit blocks and is strictly longer than
/// the message it came from; ahead of the length field, between 1 and 512
/// bits were added.
pub proof fn lemma_padded_len(message: Seq<u8>)
    ensures
        (8 * padded(message).len()) % 512 == 0,
        padded(message).len() % 64 == 0,
        padded(message).len() > message.len(),
        padded(message).len() == message.len() + 1 + zero_fill(message.len()) + 8,
        1 <= 8 * (1 + zero_fill(message.len())) <= 512,
{
    let len = message.len();
    let fill = zero_fill(len);
    let total = padded(message).len();
    assert(total == len + 1 + fill + 8) by {
        assert(length_field(len).len() == 8);
    }
    lemma_zero_fill_is_least(len, 0);
    assert(total % 64 == 0 && (8 * total) % 512 == 0) by {
        let blocks = (len + 1 + fill) / 64 + 1;
        assert(len + 1 + fill == 64 * (blocks - 1) + 56);
        assert(total == 64 * blocks);
        assert(8 * total == 512 * blocks);
    }
}

/// Pads `message` in place.
pub fn pad(message: &mut Vec<u8>)
    ensures
        final(message)@ == padded(old(message)@),
        final(message)@.len() % 64 == 0,
        final(message)@.len() > old(message)@.len(),
{
    let ghost original = message@;
    let ghost fill = zero_fill(original.len());
    let bits: u64 = (message.len() as u64).wrapping_mul(8);
    assert(bits == bit_length(original.len()));
    message.push(0x80);
    while message.len() % 64 != 56
        invariant
            fill == zero_fill(original.len()),
            original.len() < message@.len() <= original.len() + 1 + fill,
            message@ == original + seq![0x80u8] + Seq::new(
                (message@.len() - original.len() - 1) as nat,
                |i: int| 0u8,
            ),
        decreases original.len() + 1 + fill - message@.len(),
    {
        proof {
            lemma_zero_fill_is_least(original.len(), 0);
        }
        message.push(0);
    }
    proof {
        lemma_zero_fill_is_least(original.len(), (message@.len() - original.len() - 1) as nat);
    }
    let ghost filled = message@;
    let low = word_to_le((bits % 0x1_0000_0000) as u32);
    let high = word_to_le((bits / 0x1_0000_0000) as u32);
    message.extend_from_slice(low.as_slice());
    assert(message@ == filled + low@);
    message.extend_from_slice(high.as_slice());
    assert(message@ == filled + (low@ + high@));
    proof {
        lemma_padded_len(original);
    }
}

} // verus!
