//! Composition of the variable-length field groups and packing of paired
//! gas values, ahead of digesting and encoding.

use vstd::prelude::*;

use crate::model::OperationV7;
use crate::words::{be16, push_all, u128_to_be_bytes};

verus! {

/// The buffer an operation's factory group reduces to: the 20 factory
/// address bytes followed by the factory call data, or empty when the
/// group is absent.
pub open spec fn spec_init_code(op: OperationV7) -> Seq<u8> {
    match op.factory {
        Some(f) => f.factory.bytes@ + f.factory_data@,
        None => Seq::empty(),
    }
}

/// The buffer an operation's paymaster group reduces to: the 20 paymaster
/// address bytes, the 16-byte big-endian verification gas limit, the
/// 16-byte big-endian post-op gas limit, then the paymaster data; empty
/// when the group is absent.
pub open spec fn spec_paymaster_blob(op: OperationV7) -> Seq<u8> {
    match op.paymaster {
        Some(p) => p.paymaster.bytes@ + be16(p.verification_gas_limit) + be16(p.post_op_gas_limit)
            + p.data@,
        None => Seq::empty(),
    }
}

/// A 32-byte word holding two 16-byte big-endian halves, first then second.
pub open spec fn spec_pack_word(first: u128, second: u128) -> Seq<u8> {
    be16(first) + be16(second)
}

/// The packed gas-limits word: the call gas limit in the first half, the
/// verification gas limit in the second. Only the low 128 bits of each
/// field are taken; higher-order bits are dropped, as the on-chain layout
/// prescribes.
pub open spec fn spec_account_gas_limits(op: OperationV7) -> Seq<u8> {
    spec_pack_word(op.call_gas_limit.lo, op.verification_gas_limit.lo)
}

/// The packed gas-fees word: the priority fee in the first half, the
/// maximum fee in the second, each truncated to its low 128 bits.
pub open spec fn spec_gas_fees(op: OperationV7) -> Seq<u8> {
    spec_pack_word(op.max_priority_fee_per_gas.lo, op.max_fee_per_gas.lo)
}

/// Packs two 128-bit values into one 32-byte word, each as 16 big-endian
/// bytes, `first` ahead of `second`.
pub fn pack(first: u128, second: u128) -> (r: Vec<u8>)
    ensures
        r@ == spec_pack_word(first, second),
        r@.len() == 32,
{
    let mut r = u128_to_be_bytes(first);
    let second_bytes = u128_to_be_bytes(second);
    push_all(&mut r, second_bytes.as_slice());
    r
}

/// Concatenates the optional factory address and factory call data;
/// yields the empty buffer when the group is absent.
pub fn compose_init_code(op: &OperationV7) -> (r: Vec<u8>)
    ensures
        r@ == spec_init_code(*op),
{
    match &op.factory {
        Some(f) => {
            let mut r: Vec<u8> = Vec::new();
            push_all(&mut r, f.factory.bytes.as_slice());
            push_all(&mut r, f.factory_data.as_slice());
            r
        },
        None => Vec::new(),
    }
}

/// Concatenates the optional paymaster address, its two 16-byte
/// big-endian gas limits, and the paymaster data; yields the empty buffer
/// when the group is absent.
pub fn compose_paymaster(op: &OperationV7) -> (r: Vec<u8>)
    ensures
        r@ == spec_paymaster_blob(*op),
{
    match &op.paymaster {
        Some(p) => {
            let mut r: Vec<u8> = Vec::new();
            push_all(&mut r, p.paymaster.bytes.as_slice());
            let verification_bytes = u128_to_be_bytes(p.verification_gas_limit);
            push_all(&mut r, verification_bytes.as_slice());
            let post_op_bytes = u128_to_be_bytes(p.post_op_gas_limit);
            push_all(&mut r, post_op_bytes.as_slice());
            push_all(&mut r, p.data.as_slice());
            assert(r@ =~= spec_paymaster_blob(*op));
            r
        },
        None => Vec::new(),
    }
}

/// Two pairs that pack to the same word are the same pair.
pub proof fn lemma_pack_injective(a1: u128, a2: u128, b1: u128, b2: u128)
    requires
        spec_pack_word(a1, a2) == spec_pack_word(b1, b2),
    ensures
        a1 == b1,
        a2 == b2,
{
    vstd::bytes::lemma_auto_spec_u128_to_from_le_bytes();
    assert(be16(a1) =~= spec_pack_word(a1, a2).take(16));
    assert(be16(b1) =~= spec_pack_word(b1, b2).take(16));
    assert(be16(a2) =~= spec_pack_word(a1, a2).skip(16));
    assert(be16(b2) =~= spec_pack_word(b1, b2).skip(16));
    crate::words::lemma_be16_injective(a1, b1);
    crate::words::lemma_be16_injective(a2, b2);
}

} // verus!
