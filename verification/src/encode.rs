//! Canonical encoding: the standard Ethereum ABI static-tuple layout.
//!
//! Every field of a reduced operation is serialized to exactly 32 bytes —
//! addresses right-aligned behind 12 zero bytes, integers big-endian, and
//! 32-byte values passed through — and the slots are concatenated in
//! declaration order with no separators.

use vstd::prelude::*;

use crate::model::{Address, OperationV6, PackedOperationV7, U256, u256_be};
use crate::words::{push_all, u128_to_be_bytes, zeros};

verus! {

/// The 32-byte slot of an address: 12 zero bytes, then the 20 address bytes.
pub open spec fn word_of_address(a: Seq<u8>) -> Seq<u8> {
    zeros(12) + a
}

/// Writes an address into its right-aligned 32-byte slot.
pub fn address_word(a: &Address) -> (r: Vec<u8>)
    requires
        a.wf(),
    ensures
        r@ == word_of_address(a.bytes@),
        r@.len() == 32,
{
    let mut r = crate::words::zero_bytes(12);
    push_all(&mut r, a.bytes.as_slice());
    r
}

/// Writes a 256-bit value as its 32 big-endian bytes.
pub fn u256_to_be_bytes(v: U256) -> (r: Vec<u8>)
    ensures
        r@ == u256_be(v),
        r@.len() == 32,
{
    let mut r = u128_to_be_bytes(v.hi);
    let lo_bytes = u128_to_be_bytes(v.lo);
    push_all(&mut r, lo_bytes.as_slice());
    r
}

/// The encoding of a version-0.6 operation: its ten fields, one 32-byte
/// slot each, in declaration order.
pub open spec fn spec_encode_v6(op: OperationV6) -> Seq<u8> {
    word_of_address(op.sender.bytes@) + u256_be(op.nonce) + op.init_code_digest@
        + op.call_data_digest@ + u256_be(op.call_gas_limit) + u256_be(op.verification_gas_limit)
        + u256_be(op.pre_verification_gas) + u256_be(op.max_fee_per_gas) + u256_be(
        op.max_priority_fee_per_gas,
    ) + op.paymaster_and_data_digest@
}

/// Encodes a version-0.6 operation as its 320-byte static tuple.
pub fn encode_v6(op: &OperationV6) -> (r: Vec<u8>)
    requires
        op.wf(),
    ensures
        r@ == spec_encode_v6(*op),
        r@.len() == 320,
{
    let mut r = address_word(&op.sender);
    let nonce_bytes = u256_to_be_bytes(op.nonce);
    push_all(&mut r, nonce_bytes.as_slice());
    push_all(&mut r, op.init_code_digest.as_slice());
    push_all(&mut r, op.call_data_digest.as_slice());
    let call_gas_bytes = u256_to_be_bytes(op.call_gas_limit);
    push_all(&mut r, call_gas_bytes.as_slice());
    let verification_gas_bytes = u256_to_be_bytes(op.verification_gas_limit);
    push_all(&mut r, verification_gas_bytes.as_slice());
    let pre_verification_bytes = u256_to_be_bytes(op.pre_verification_gas);
    push_all(&mut r, pre_verification_bytes.as_slice());
    let max_fee_bytes = u256_to_be_bytes(op.max_fee_per_gas);
    push_all(&mut r, max_fee_bytes.as_slice());
    let max_priority_bytes = u256_to_be_bytes(op.max_priority_fee_per_gas);
    push_all(&mut r, max_priority_bytes.as_slice());
    push_all(&mut r, op.paymaster_and_data_digest.as_slice());
    assert(r@ =~= spec_encode_v6(*op));
    r
}

/// The encoding of a packed version-0.7 operation: its eight fields, one
/// 32-byte slot each, in declaration order.
pub open spec fn spec_encode_packed_v7(p: PackedOperationV7) -> Seq<u8> {
    word_of_address(p.sender.bytes@) + u256_be(p.nonce) + p.init_code_digest@
        + p.call_data_digest@ + p.account_gas_limits@ + u256_be(p.pre_verification_gas)
        + p.gas_fees@ + p.paymaster_and_data_digest@
}

/// Encodes a packed version-0.7 operation as its 256-byte static tuple.
pub fn encode_packed_v7(p: &PackedOperationV7) -> (r: Vec<u8>)
    requires
        p.wf(),
    ensures
        r@ == spec_encode_packed_v7(*p),
        r@.len() == 256,
{
    let mut r = address_word(&p.sender);
    let nonce_bytes = u256_to_be_bytes(p.nonce);
    push_all(&mut r, nonce_bytes.as_slice());
    push_all(&mut r, p.init_code_digest.as_slice());
    push_all(&mut r, p.call_data_digest.as_slice());
    push_all(&mut r, p.account_gas_limits.as_slice());
    let pre_verification_bytes = u256_to_be_bytes(p.pre_verification_gas);
    push_all(&mut r, pre_verification_bytes.as_slice());
    push_all(&mut r, p.gas_fees.as_slice());
    push_all(&mut r, p.paymaster_and_data_digest.as_slice());
    assert(r@ =~= spec_encode_packed_v7(*p));
    r
}

} // verus!
