//! MD5 message digest (RFC 1321): padding, block compression and digest
//! formatting, each with a machine-checked contract over a mathematical model
//! of the algorithm.

pub mod compress;
pub mod digest;
pub mod encoding;
pub mod endian;
pub mod padding;
pub mod state;
pub mod tables;

pub use digest::{hash, hash_hex, self_test};
pub use padding::pad;
pub use state::State;
