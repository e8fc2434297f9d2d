//! Canonical identifying hashes for ERC-4337 user operations.
//!
//! Given a structured operation record, the library reduces its
//! variable-length byte fields to keccak-256 digests, packs paired gas
//! values into 32-byte words, encodes the reduced record as a static ABI
//! tuple, hashes the encoding, and folds the result together with the
//! entry-point address and the chain id into the final hash.

pub mod compose;
pub mod digest;
pub mod encode;
pub mod hasher;
pub mod hexcodec;
pub mod laws;
pub mod model;
pub mod words;
