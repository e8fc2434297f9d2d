//! The keccak-256 digest of a byte buffer.

use vstd::prelude::*;

verus! {

/// The keccak-256 digest of a byte sequence. The digest is a function of
/// the bytes alone; its 32-byte length is stated where the hash is taken.
pub uninterp spec fn keccak_of(data: Seq<u8>) -> Seq<u8>;

/// Relies on alloy_core's keccak256: the digest is a deterministic
/// function of the input bytes alone, and is always 32 bytes long.
#[verifier::external_body]
fn keccak256(data: &[u8]) -> (r: Vec<u8>)
    ensures
        r@ == keccak_of(data@),
        r@.len() == 32,
{
    alloy_core::primitives::keccak256(data).to_vec()
}

/// Reduces an arbitrary-length byte buffer to its fixed 32-byte
/// keccak-256 digest; total over all byte sequences, including the empty
/// one that stands for an absent field.
pub fn field_digest(data: &[u8]) -> (r: Vec<u8>)
    ensures
        r@ == keccak_of(data@),
        r@.len() == 32,
{
    keccak256(data)
}

} // verus!
