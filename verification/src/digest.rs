//! The digest of a whole message, as bytes and as hexadecimal text.

use vstd::prelude::*;
use vstd::slice::slice_to_vec;
use vstd::string::StringSliceAdditionalSpecFns;

use crate::compress::after_blocks;
use crate::encoding::{encode_hex, hex_text};
use crate::padding::{pad, padded};
use crate::state::{initial_state, state_bytes, State};

verus! {

/// The MD5 digest of `message`: the bytes of the state reached from the
/// initial state by compressing, in order, every block of the padded message.
pub open spec fn md5(message: Seq<u8>) -> Seq<u8> {
    let data = padded(message);
    state_bytes(after_blocks(initial_state(), data, data.len() / 64))
}

/// The digest of `message` as text.
pub open spec fn md5_hex(message: Seq<u8>) -> Seq<char> {
    hex_text(md5(message))
}

/// A digest is sixteen bytes, and its text thirty-two characters, whatever
/// the length of the message.
pub proof fn lemma_digest_len(message: Seq<u8>)
    ensures
        md5(message).len() == 16,
        md5_hex(message).len() == 32,
{
}

/// Hashing is deterministic: two digests that each answer the contract of
/// `hash` for the same message are the same sixteen bytes.
pub proof fn lemma_hash_deterministic(message: Seq<u8>, first: [u8; 16], second: [u8; 16])
    requires
        first@ == md5(message),
        second@ == md5(message),
    ensures
        first == second,
{
    assert(first =~= second);
}

/// Computes the digest of `message`.
pub fn hash(message: &[u8]) -> (digest: [u8; 16])
    ensures
        digest@ == md5(message@),
        digest@.len() == 16,
{
    let mut state = State::default();
    let mut message_bytes = slice_to_vec(message);
    pad(&mut message_bytes);
    state.absorb(message_bytes.as_slice());
    state.to_bytes()
}

/// Computes the digest of `message` and renders it as thirty-two lowercase
/// hexadecimal characters.
pub fn hash_hex(message: &[u8]) -> (text: String)
    ensures
        text@ == md5_hex(message@),
        text@.len() == 32,
{
    let digest = hash(message);
    encode_hex(digest.as_slice())
}

/// Whether the three published reference digests come out of the model.
pub open spec fn known_answers_hold() -> bool {
    &&& md5_hex("".spec_bytes()) == "d41d8cd98f00b204e9800998ecf8427e"@
    &&& md5_hex("abcde".spec_bytes()) == "ab56b4d92b40713acc5af89985d4b786"@
    &&& md5_hex("abcdefghijklmnopqrstuvwxyz123456789012345678901234567890".spec_bytes())
        == "68b7c41b350d85fe015fc2602f128c4c"@
}

/// Hashes three reference messages and reports whether every digest matches
/// its published value.
pub fn self_test() -> (ok: bool)
    ensures
        ok == known_answers_hold(),
{
    let empty = hash_hex("".as_bytes());
    let short = hash_hex("abcde".as_bytes());
    let long = hash_hex("abcdefghijklmnopqrstuvwxyz123456789012345678901234567890".as_bytes());
    empty == "d41d8cd98f00b204e9800998ecf8427e".to_owned()
        && short == "ab56b4d92b40713acc5af89985d4b786".to_owned()
        && long == "68b7c41b350d85fe015fc2602f128c4c".to_owned()
}

} // verus!
