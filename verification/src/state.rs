//! The four 32-bit registers that carry the digest through the computation.

use vstd::prelude::*;

use crate::endian::{le_bytes32, word_to_le};
use crate::tables::{A_INIT, B_INIT, C_INIT, D_INIT};

verus! {

/// The running state of a digest computation: registers A, B, C and D.
#[derive(Clone, Copy, Debug, PartialEq, Eq)]
pub struct State {
    pub a: u32,
    pub b: u32,
    pub c: u32,
    pub d: u32,
}

/// Sum of two words modulo `2^32`.
pub open spec fn add32(x: u32, y: u32) -> u32 {
    ((x + y) % 0x1_0000_0000) as u32
}

/// The state every digest computation starts from.
pub open spec fn initial_state() -> State {
    State { a: A_INIT, b: B_INIT, c: C_INIT, d: D_INIT }
}

/// The state after one round has contributed `f`: the registers move one
/// place along (A takes D, D takes C, C takes B) and B absorbs `f`.
pub open spec fn rotated(s: State, f: u32) -> State {
    State { a: s.d, b: add32(s.b, f), c: s.b, d: s.c }
}

/// The sixteen digest bytes of a final state: the little-endian bytes of A,
/// then of B, of C and of D.
pub open spec fn state_bytes(s: State) -> Seq<u8> {
    le_bytes32(s.a) + le_bytes32(s.b) + le_bytes32(s.c) + le_bytes32(s.d)
}

impl Default for State {
    fn default() -> (s: State)
        ensures
            s == initial_state(),
    {
        State { a: A_INIT, b: B_INIT, c: C_INIT, d: D_INIT }
    }
}

impl State {
    /// Moves the registers one place along and adds the round output `f`
    /// into B, modulo `2^32`.
    pub fn rotate(&mut self, f: u32)
        ensures
            *final(self) == rotated(*old(self), f),
    {
        self.a = self.d;
        self.d = self.c;
        self.c = self.b;
        self.b = self.b.wrapping_add(f);
    }

    /// Serializes the registers into the digest: sixteen bytes, A first and
    /// D last, each least significant byte first.
    pub fn to_bytes(&self) -> (digest: [u8; 16])
        ensures
            digest@ == state_bytes(*self),
    {
        let a = word_to_le(self.a);
        let b = word_to_le(self.b);
        let c = word_to_le(self.c);
        let d = word_to_le(self.d);
        [
            a[0], a[1], a[2], a[3],
            b[0], b[1], b[2], b[3],
            c[0], c[1], c[2], c[3],
            d[0], d[1], d[2], d[3],
        ]
    }
}

} // verus!
