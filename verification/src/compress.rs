//! The compression function: sixty-four rounds per 64-byte block, chained
//! from block to block through the running state.

use vstd::prelude::*;
use vstd::slice::slice_subrange;

use crate::endian::{le_word32, word_from_le};
use crate::state::{add32, rotated, State};
use crate::tables::{K, SHIFT};

verus! {

/// `x` rotated left by `n` bits, for `0 < n < 32`.
pub open spec fn rotl32(x: u32, n: u32) -> u32 {
    (x << n) | (x >> ((32 - n) as u32))
}

/// The sixteen message words of a 64-byte block: word `j` is made of bytes
/// `4j .. 4j + 3`, least significant first.
pub open spec fn block_words(block: Seq<u8>) -> Seq<u32> {
    Seq::new(
        16,
        |j: int| le_word32(block[4 * j], block[4 * j + 1], block[4 * j + 2], block[4 * j + 3]),
    )
}

/// The nonlinear mixing of registers B, C and D in round `i`.
pub open spec fn mix(i: int, b: u32, c: u32, d: u32) -> u32 {
    if i < 16 {
        d ^ (b & (c ^ d))
    } else if i < 32 {
        c ^ (d & (b ^ c))
    } else if i < 48 {
        b ^ c ^ d
    } else {
        c ^ (b | !d)
    }
}

/// Which message word round `i` consumes.
pub open spec fn word_index(i: int) -> int {
    if i < 16 {
        i
    } else if i < 32 {
        (5 * i + 1) % 16
    } else if i < 48 {
        (3 * i + 5) % 16
    } else {
        (7 * i) % 16
    }
}

/// What round `i` adds into register B: the mix of B, C and D plus A, the
/// round constant and the selected message word, all modulo `2^32`, rotated
/// left by the round's shift.
pub open spec fn round_output(s: State, i: int, words: Seq<u32>) -> u32 {
    rotl32(
        add32(add32(add32(mix(i, s.b, s.c, s.d), s.a), K@[i]), words[word_index(i)]),
        SHIFT@[i],
    )
}

/// The state after the first `n` rounds of a block, starting from `s`.
#[verifier::opaque]
pub open spec fn after_rounds(s: State, words: Seq<u32>, n: nat) -> State
    decreases n,
{
    if n == 0 {
        s
    } else {
        let prev = after_rounds(s, words, (n - 1) as nat);
        rotated(prev, round_output(prev, n - 1, words))
    }
}

/// The state after one whole block: sixty-four rounds, then the incoming
/// state added back register by register, modulo `2^32`.
pub open spec fn compressed(s: State, block: Seq<u8>) -> State {
    let r = after_rounds(s, block_words(block), 64);
    State { a: add32(r.a, s.a), b: add32(r.b, s.b), c: add32(r.c, s.c), d: add32(r.d, s.d) }
}

/// The state after the first `n` blocks of `data`, starting from `s`.
pub open spec fn after_blocks(s: State, data: Seq<u8>, n: nat) -> State
    decreases n,
{
    if n == 0 {
        s
    } else {
        compressed(after_blocks(s, data, (n - 1) as nat), data.subrange(64 * (n - 1), 64 * n as int))
    }
}

/// Rotates `x` left by `n` bits.
fn rotate_left(x: u32, n: u32) -> (r: u32)
    requires
        0 < n < 32,
    ensures
        r == rotl32(x, n),
{
    (x << n) | (x >> (32 - n))
}

/// What a round adds into register B, given the mix `f` of B, C and D, the
/// register A, the round number and the message word the round consumes.
fn round_value(f: u32, a: u32, i: usize, w: u32) -> (r: u32)
    requires
        i < 64,
    ensures
        r == rotl32(add32(add32(add32(f, a), K@[i as int]), w), SHIFT@[i as int]),
{
    rotate_left(f.wrapping_add(a).wrapping_add(K[i]).wrapping_add(w), SHIFT[i])
}

/// Reads the sixteen little-endian words of a block.
fn read_words(block: &[u8]) -> (words: [u32; 16])
    requires
        block@.len() == 64,
    ensures
        words@ == block_words(block@),
{
    let mut words: [u32; 16] = [0; 16];
    let mut j: usize = 0;
    while j < 16
        invariant
            j <= 16,
            block@.len() == 64,
            forall|k: int| 0 <= k < j ==> words@[k] == block_words(block@)[k],
        decreases 16 - j,
    {
        words[j] = word_from_le(block[4 * j], block[4 * j + 1], block[4 * j + 2], block[4 * j + 3]);
        j += 1;
    }
    words
}

impl State {
    /// Folds one 64-byte block into the state.
    pub fn compress(&mut self, block: &[u8])
        requires
            block@.len() == 64,
        ensures
            *final(self) == compressed(*old(self), block@),
    {
        let start = *self;
        let m = read_words(block);
        let mut indx: usize = 0;
        assert(*self == after_rounds(start, m@, 0)) by {
            reveal_with_fuel(after_rounds, 1);
        }
        while indx < 16
            invariant
                indx <= 16,
                *self == after_rounds(start, m@, indx as nat),
            decreases 16 - indx,
        {
            proof {
                reveal_with_fuel(after_rounds, 2);
            }
            let f = round_value(self.d ^ (self.b & (self.c ^ self.d)), self.a, indx, m[indx]);
            self.rotate(f);
            indx += 1;
        }
        while indx < 32
            invariant
                16 <= indx <= 32,
                *self == after_rounds(start, m@, indx as nat),
            decreases 32 - indx,
        {
            proof {
                reveal_with_fuel(after_rounds, 2);
            }
            let f = round_value(
                self.c ^ (self.d & (self.b ^ self.c)),
                self.a,
                indx,
                m[(indx * 5 + 1) % 16],
            );
            self.rotate(f);
            indx += 1;
        }
        while indx < 48
            invariant
                32 <= indx <= 48,
                *self == after_rounds(start, m@, indx as nat),
            decreases 48 - indx,
        {
            proof {
                reveal_with_fuel(after_rounds, 2);
            }
            let f = round_value(self.b ^ self.c ^ self.d, self.a, indx, m[(indx * 3 + 5) % 16]);
            self.rotate(f);
            indx += 1;
        }
        while indx < 64
            invariant
                48 <= indx <= 64,
                *self == after_rounds(start, m@, indx as nat),
            decreases 64 - indx,
        {
            proof {
                reveal_with_fuel(after_rounds, 2);
            }
            let f = round_value(self.c ^ (self.b | (!self.d)), self.a, indx, m[(indx * 7) % 16]);
            self.rotate(f);
            indx += 1;
        }
        self.a = self.a.wrapping_add(start.a);
        self.b = self.b.wrapping_add(start.b);
        self.c = self.c.wrapping_add(start.c);
        self.d = self.d.wrapping_add(start.d);
    }

    /// Folds a whole number of 64-byte blocks into the state, in order.
    pub fn absorb(&mut self, data: &[u8])
        requires
            data@.len() % 64 == 0,
        ensures
            *final(self) == after_blocks(*old(self), data@, data@.len() / 64),
    {
        let ghost start = *self;
        let blocks = data.len() / 64;
        let mut k: usize = 0;
        while k < blocks
            invariant
                k <= blocks,
                64 * blocks == data@.len() <= usize::MAX,
                *self == after_blocks(start, data@, k as nat),
            decreases blocks - k,
        {
            let block = slice_subrange(data, 64 * k, 64 * k + 64);
            self.compress(block);
            k += 1;
        }
    }
}

} // verus!
