//! Orchestration: reduce an operation, encode it, hash the encoding, and
//! fold the result with the entry-point address and chain id into the
//! final identifying hash.

use vstd::prelude::*;

use crate::compose::{
    compose_init_code, compose_paymaster, pack, spec_account_gas_limits, spec_gas_fees,
    spec_init_code, spec_paymaster_blob,
};
use crate::digest::{field_digest, keccak_of};
use crate::encode::{
    encode_packed_v7, encode_v6, spec_encode_packed_v7, spec_encode_v6, word_of_address,
};
use crate::model::{Address, OperationV7, PackedOperationV7, RawOperation, u256_be};
use crate::words::{be16, push_all, zeros};

verus! {

/// The encoding a version-0.7 operation reduces to: factory group and
/// paymaster group composed and digested, call data digested, gas pairs
/// packed, and the eight slots concatenated in declaration order.
pub open spec fn spec_encode_v7(op: OperationV7) -> Seq<u8> {
    word_of_address(op.sender.bytes@) + u256_be(op.nonce) + keccak_of(spec_init_code(op))
        + keccak_of(op.call_data@) + spec_account_gas_limits(op) + u256_be(op.pre_verification_gas)
        + spec_gas_fees(op) + keccak_of(spec_paymaster_blob(op))
}

/// The raw operation hash, before domain separation.
pub open spec fn spec_operation_hash(op: RawOperation) -> Seq<u8> {
    match op {
        RawOperation::V6(o) => keccak_of(spec_encode_v6(o)),
        RawOperation::V7(o) => keccak_of(spec_encode_v7(o)),
    }
}

/// The preimage of the final hash: the 32-byte operation hash, the
/// entry-point address behind 12 zero bytes, and the chain id as a
/// 32-byte big-endian integer.
pub open spec fn spec_domain_preimage(op_hash: Seq<u8>, entry_point: Seq<u8>, chain_id: u64) -> Seq<
    u8,
> {
    op_hash + zeros(12) + entry_point + zeros(16) + be16(chain_id as u128)
}

/// The final identifying hash of an operation.
pub open spec fn spec_final_hash(op: RawOperation, entry_point: Seq<u8>, chain_id: u64) -> Seq<
    u8,
> {
    keccak_of(spec_domain_preimage(spec_operation_hash(op), entry_point, chain_id))
}

/// Reduces a version-0.7 operation: digests the composed factory group,
/// the call data, and the composed paymaster group, and packs the two gas
/// pairs into their 32-byte words.
pub fn pack_operation_v7(op: &OperationV7) -> (p: PackedOperationV7)
    requires
        op.wf(),
    ensures
        p.wf(),
        p.sender.bytes@ == op.sender.bytes@,
        p.nonce == op.nonce,
        p.init_code_digest@ == keccak_of(spec_init_code(*op)),
        p.call_data_digest@ == keccak_of(op.call_data@),
        p.account_gas_limits@ == spec_account_gas_limits(*op),
        p.pre_verification_gas == op.pre_verification_gas,
        p.gas_fees@ == spec_gas_fees(*op),
        p.paymaster_and_data_digest@ == keccak_of(spec_paymaster_blob(*op)),
{
    let init_code = compose_init_code(op);
    let init_code_digest = field_digest(init_code.as_slice());
    let call_data_digest = field_digest(op.call_data.as_slice());
    let paymaster_blob = compose_paymaster(op);
    let paymaster_and_data_digest = field_digest(paymaster_blob.as_slice());
    let account_gas_limits = pack(op.call_gas_limit.lo, op.verification_gas_limit.lo);
    let gas_fees = pack(op.max_priority_fee_per_gas.lo, op.max_fee_per_gas.lo);
    PackedOperationV7 {
        sender: Address { bytes: crate::words::copy_bytes(op.sender.bytes.as_slice()) },
        nonce: op.nonce,
        init_code_digest,
        call_data_digest,
        account_gas_limits,
        pre_verification_gas: op.pre_verification_gas,
        gas_fees,
        paymaster_and_data_digest,
    }
}

/// Hashes an operation: encodes its reduced form as a static tuple and
/// takes the keccak-256 digest of the encoding.
pub fn hash_operation(op: &RawOperation) -> (r: Vec<u8>)
    requires
        op.wf(),
    ensures
        r@ == spec_operation_hash(*op),
        r@.len() == 32,
{
    match op {
        RawOperation::V6(o) => {
            let encoded = encode_v6(o);
            field_digest(encoded.as_slice())
        },
        RawOperation::V7(o) => {
            let packed = pack_operation_v7(o);
            let encoded = encode_packed_v7(&packed);
            assert(encoded@ =~= spec_encode_v7(*o));
            field_digest(encoded.as_slice())
        },
    }
}

/// Folds an operation hash with the entry-point address and the chain id:
/// concatenates the 32-byte hash, the address left-padded into a 32-byte
/// slot, and the chain id as a 32-byte big-endian integer, then hashes
/// the result. The layout is the same for both versions.
pub fn finalize(op_hash: &[u8], entry_point: &Address, chain_id: u64) -> (r: Vec<u8>)
    requires
        op_hash@.len() == 32,
        entry_point.wf(),
    ensures
        r@ == keccak_of(spec_domain_preimage(op_hash@, entry_point.bytes@, chain_id)),
        r@.len() == 32,
{
    let mut preimage: Vec<u8> = Vec::new();
    push_all(&mut preimage, op_hash);
    let ep_word = crate::encode::address_word(entry_point);
    push_all(&mut preimage, ep_word.as_slice());
    let chain_pad = crate::words::zero_bytes(16);
    push_all(&mut preimage, chain_pad.as_slice());
    let chain_bytes = crate::words::u128_to_be_bytes(chain_id as u128);
    push_all(&mut preimage, chain_bytes.as_slice());
    assert(preimage@ =~= spec_domain_preimage(op_hash@, entry_point.bytes@, chain_id));
    field_digest(preimage.as_slice())
}

/// The whole pipeline: the operation hash folded with the entry point and
/// chain id into the final identifying hash.
pub fn user_operation_hash(op: &RawOperation, entry_point: &Address, chain_id: u64) -> (r: Vec<
    u8,
>)
    requires
        op.wf(),
        entry_point.wf(),
    ensures
        r@ == spec_final_hash(*op, entry_point.bytes@, chain_id),
        r@.len() == 32,
{
    let op_hash = hash_operation(op);
    finalize(op_hash.as_slice(), entry_point, chain_id)
}

} // verus!
