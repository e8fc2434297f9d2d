//! The laws the pipeline obeys: order-sensitivity of packing, injectivity
//! of the canonical encodings, and the digests of absent field groups.

use vstd::prelude::*;

use crate::compose::{
    spec_account_gas_limits, spec_gas_fees, spec_init_code, spec_pack_word, spec_paymaster_blob,
};
use crate::digest::keccak_of;
use crate::encode::{spec_encode_packed_v7, spec_encode_v6, word_of_address};
use crate::model::{OperationV6, OperationV7, PackedOperationV7, RawOperation, u256_be};
use crate::words::{be16, lemma_be16_injective, lemma_be16_len};

verus! {

/// Splits an equality of two concatenations whose left parts have the
/// same length.
proof fn lemma_concat_split(a1: Seq<u8>, a2: Seq<u8>, b1: Seq<u8>, b2: Seq<u8>)
    requires
        a1 + a2 == b1 + b2,
        a1.len() == b1.len(),
    ensures
        a1 == b1,
        a2 == b2,
{
    assert(a1 =~= (a1 + a2).take(a1.len() as int));
    assert(b1 =~= (b1 + b2).take(b1.len() as int));
    assert(a2 =~= (a1 + a2).skip(a1.len() as int));
    assert(b2 =~= (b1 + b2).skip(b1.len() as int));
}

/// The pipeline is deterministic: any two results of hashing the same
/// operation under the same entry point and chain id are the same hash.
pub proof fn lemma_hash_deterministic(
    op: RawOperation,
    entry_point: Seq<u8>,
    chain_id: u64,
    r1: Seq<u8>,
    r2: Seq<u8>,
)
    requires
        r1 == crate::hasher::spec_final_hash(op, entry_point, chain_id),
        r2 == crate::hasher::spec_final_hash(op, entry_point, chain_id),
    ensures
        r1 == r2,
{
}

/// The two halves of a packed word are order-sensitive: swapping two
/// distinct values changes the word.
pub proof fn lemma_pack_order_sensitive(a: u128, b: u128)
    requires
        a != b,
    ensures
        spec_pack_word(a, b) != spec_pack_word(b, a),
{
    if spec_pack_word(a, b) == spec_pack_word(b, a) {
        crate::compose::lemma_pack_injective(a, b, b, a);
    }
}

/// A packed word determines the pair it was packed from: a value no
/// larger than 128 bits loses nothing to packing.
pub proof fn lemma_pack_lossless(a1: u128, a2: u128, b1: u128, b2: u128)
    requires
        spec_pack_word(a1, a2) == spec_pack_word(b1, b2),
    ensures
        a1 == b1,
        a2 == b2,
{
    crate::compose::lemma_pack_injective(a1, a2, b1, b2);
}

/// The gas words of a version-0.7 operation read only the low 128 bits of
/// the four paired gas fields: bits above them are dropped.
pub proof fn lemma_gas_words_use_low_halves(a: OperationV7, b: OperationV7)
    requires
        a.call_gas_limit.lo == b.call_gas_limit.lo,
        a.verification_gas_limit.lo == b.verification_gas_limit.lo,
        a.max_fee_per_gas.lo == b.max_fee_per_gas.lo,
        a.max_priority_fee_per_gas.lo == b.max_priority_fee_per_gas.lo,
    ensures
        spec_account_gas_limits(a) == spec_account_gas_limits(b),
        spec_gas_fees(a) == spec_gas_fees(b),
{
}

/// An absent factory group reduces to the empty buffer, so its digest
/// slot holds exactly the digest of the zero-length buffer.
pub proof fn lemma_absent_factory_digest(op: OperationV7)
    requires
        op.factory is None,
    ensures
        spec_init_code(op) == Seq::<u8>::empty(),
        keccak_of(spec_init_code(op)) == keccak_of(Seq::<u8>::empty()),
{
}

/// An absent paymaster group reduces to the empty buffer, so its digest
/// slot holds exactly the digest of the zero-length buffer.
pub proof fn lemma_absent_paymaster_digest(op: OperationV7)
    requires
        op.paymaster is None,
    ensures
        spec_paymaster_blob(op) == Seq::<u8>::empty(),
        keccak_of(spec_paymaster_blob(op)) == keccak_of(Seq::<u8>::empty()),
{
}

/// An address slot determines the address.
proof fn lemma_address_word_injective(a: Seq<u8>, b: Seq<u8>)
    requires
        word_of_address(a) == word_of_address(b),
    ensures
        a == b,
{
    lemma_concat_split(crate::words::zeros(12), a, crate::words::zeros(12), b);
}

/// The version-0.6 encoding is injective: two well-formed operations with
/// the same encoding agree on every field. No two fields alias through
/// the layout.
pub proof fn lemma_encode_v6_injective(a: OperationV6, b: OperationV6)
    requires
        a.wf(),
        b.wf(),
        spec_encode_v6(a) == spec_encode_v6(b),
    ensures
        a.sender.bytes@ == b.sender.bytes@,
        a.nonce == b.nonce,
        a.init_code_digest@ == b.init_code_digest@,
        a.call_data_digest@ == b.call_data_digest@,
        a.call_gas_limit == b.call_gas_limit,
        a.verification_gas_limit == b.verification_gas_limit,
        a.pre_verification_gas == b.pre_verification_gas,
        a.max_fee_per_gas == b.max_fee_per_gas,
        a.max_priority_fee_per_gas == b.max_priority_fee_per_gas,
        a.paymaster_and_data_digest@ == b.paymaster_and_data_digest@,
{
    let ea = spec_encode_v6(a);
    let eb = spec_encode_v6(b);
    lemma_v6_word_lens(a);
    lemma_v6_word_lens(b);
    assert(word_of_address(a.sender.bytes@) =~= ea.subrange(0, 32));
    assert(word_of_address(b.sender.bytes@) =~= eb.subrange(0, 32));
    lemma_address_word_injective(a.sender.bytes@, b.sender.bytes@);
    assert(u256_be(a.nonce) =~= ea.subrange(32, 64));
    assert(u256_be(b.nonce) =~= eb.subrange(32, 64));
    crate::model::lemma_u256_be_injective(a.nonce, b.nonce);
    assert(a.init_code_digest@ =~= ea.subrange(64, 96));
    assert(b.init_code_digest@ =~= eb.subrange(64, 96));
    assert(a.call_data_digest@ =~= ea.subrange(96, 128));
    assert(b.call_data_digest@ =~= eb.subrange(96, 128));
    assert(u256_be(a.call_gas_limit) =~= ea.subrange(128, 160));
    assert(u256_be(b.call_gas_limit) =~= eb.subrange(128, 160));
    crate::model::lemma_u256_be_injective(a.call_gas_limit, b.call_gas_limit);
    assert(u256_be(a.verification_gas_limit) =~= ea.subrange(160, 192));
    assert(u256_be(b.verification_gas_limit) =~= eb.subrange(160, 192));
    crate::model::lemma_u256_be_injective(a.verification_gas_limit, b.verification_gas_limit);
    assert(u256_be(a.pre_verification_gas) =~= ea.subrange(192, 224));
    assert(u256_be(b.pre_verification_gas) =~= eb.subrange(192, 224));
    crate::model::lemma_u256_be_injective(a.pre_verification_gas, b.pre_verification_gas);
    assert(u256_be(a.max_fee_per_gas) =~= ea.subrange(224, 256));
    assert(u256_be(b.max_fee_per_gas) =~= eb.subrange(224, 256));
    crate::model::lemma_u256_be_injective(a.max_fee_per_gas, b.max_fee_per_gas);
    assert(u256_be(a.max_priority_fee_per_gas) =~= ea.subrange(256, 288));
    assert(u256_be(b.max_priority_fee_per_gas) =~= eb.subrange(256, 288));
    crate::model::lemma_u256_be_injective(a.max_priority_fee_per_gas, b.max_priority_fee_per_gas);
    assert(a.paymaster_and_data_digest@ =~= ea.subrange(288, 320));
    assert(b.paymaster_and_data_digest@ =~= eb.subrange(288, 320));
}

/// The lengths of the ten slots of a version-0.6 encoding.
proof fn lemma_v6_word_lens(op: OperationV6)
    requires
        op.wf(),
    ensures
        word_of_address(op.sender.bytes@).len() == 32,
        u256_be(op.nonce).len() == 32,
        u256_be(op.call_gas_limit).len() == 32,
        u256_be(op.verification_gas_limit).len() == 32,
        u256_be(op.pre_verification_gas).len() == 32,
        u256_be(op.max_fee_per_gas).len() == 32,
        u256_be(op.max_priority_fee_per_gas).len() == 32,
        spec_encode_v6(op).len() == 320,
{
    lemma_be16_len(op.nonce.hi);
    lemma_be16_len(op.nonce.lo);
    lemma_be16_len(op.call_gas_limit.hi);
    lemma_be16_len(op.call_gas_limit.lo);
    lemma_be16_len(op.verification_gas_limit.hi);
    lemma_be16_len(op.verification_gas_limit.lo);
    lemma_be16_len(op.pre_verification_gas.hi);
    lemma_be16_len(op.pre_verification_gas.lo);
    lemma_be16_len(op.max_fee_per_gas.hi);
    lemma_be16_len(op.max_fee_per_gas.lo);
    lemma_be16_len(op.max_priority_fee_per_gas.hi);
    lemma_be16_len(op.max_priority_fee_per_gas.lo);
}

/// The packed version-0.7 encoding is injective: two well-formed packed
/// operations with the same encoding agree on every slot. No two fields
/// alias through the packing step.
pub proof fn lemma_encode_packed_v7_injective(a: PackedOperationV7, b: PackedOperationV7)
    requires
        a.wf(),
        b.wf(),
        spec_encode_packed_v7(a) == spec_encode_packed_v7(b),
    ensures
        a.sender.bytes@ == b.sender.bytes@,
        a.nonce == b.nonce,
        a.init_code_digest@ == b.init_code_digest@,
        a.call_data_digest@ == b.call_data_digest@,
        a.account_gas_limits@ == b.account_gas_limits@,
        a.pre_verification_gas == b.pre_verification_gas,
        a.gas_fees@ == b.gas_fees@,
        a.paymaster_and_data_digest@ == b.paymaster_and_data_digest@,
{
    let ea = spec_encode_packed_v7(a);
    let eb = spec_encode_packed_v7(b);
    lemma_packed_v7_word_lens(a);
    lemma_packed_v7_word_lens(b);
    assert(word_of_address(a.sender.bytes@) =~= ea.subrange(0, 32));
    assert(word_of_address(b.sender.bytes@) =~= eb.subrange(0, 32));
    lemma_address_word_injective(a.sender.bytes@, b.sender.bytes@);
    assert(u256_be(a.nonce) =~= ea.subrange(32, 64));
    assert(u256_be(b.nonce) =~= eb.subrange(32, 64));
    crate::model::lemma_u256_be_injective(a.nonce, b.nonce);
    assert(a.init_code_digest@ =~= ea.subrange(64, 96));
    assert(b.init_code_digest@ =~= eb.subrange(64, 96));
    assert(a.call_data_digest@ =~= ea.subrange(96, 128));
    assert(b.call_data_digest@ =~= eb.subrange(96, 128));
    assert(a.account_gas_limits@ =~= ea.subrange(128, 160));
    assert(b.account_gas_limits@ =~= eb.subrange(128, 160));
    assert(u256_be(a.pre_verification_gas) =~= ea.subrange(160, 192));
    assert(u256_be(b.pre_verification_gas) =~= eb.subrange(160, 192));
    crate::model::lemma_u256_be_injective(a.pre_verification_gas, b.pre_verification_gas);
    assert(a.gas_fees@ =~= ea.subrange(192, 224));
    assert(b.gas_fees@ =~= eb.subrange(192, 224));
    assert(a.paymaster_and_data_digest@ =~= ea.subrange(224, 256));
    assert(b.paymaster_and_data_digest@ =~= eb.subrange(224, 256));
}

/// The lengths of the eight slots of a packed version-0.7 encoding.
proof fn lemma_packed_v7_word_lens(p: PackedOperationV7)
    requires
        p.wf(),
    ensures
        word_of_address(p.sender.bytes@).len() == 32,
        u256_be(p.nonce).len() == 32,
        u256_be(p.pre_verification_gas).len() == 32,
        spec_encode_packed_v7(p).len() == 256,
{
    lemma_be16_len(p.nonce.hi);
    lemma_be16_len(p.nonce.lo);
    lemma_be16_len(p.pre_verification_gas.hi);
    lemma_be16_len(p.pre_verification_gas.lo);
}

/// A composed factory-group buffer determines the group: the address is
/// its fixed-width 20-byte prefix, the call data the remainder.
pub proof fn lemma_init_code_injective(a: OperationV7, b: OperationV7)
    requires
        a.wf(),
        b.wf(),
        a.factory is Some,
        b.factory is Some,
        spec_init_code(a) == spec_init_code(b),
    ensures
        a.factory->Some_0.factory.bytes@ == b.factory->Some_0.factory.bytes@,
        a.factory->Some_0.factory_data@ == b.factory->Some_0.factory_data@,
{
    let fa = a.factory->Some_0;
    let fb = b.factory->Some_0;
    lemma_concat_split(fa.factory.bytes@, fa.factory_data@, fb.factory.bytes@, fb.factory_data@);
}

/// A composed paymaster-group buffer determines the group: the address
/// and the two 16-byte gas limits are fixed-width, the data the
/// remainder.
pub proof fn lemma_paymaster_blob_injective(a: OperationV7, b: OperationV7)
    requires
        a.wf(),
        b.wf(),
        a.paymaster is Some,
        b.paymaster is Some,
        spec_paymaster_blob(a) == spec_paymaster_blob(b),
    ensures
        a.paymaster->Some_0.paymaster.bytes@ == b.paymaster->Some_0.paymaster.bytes@,
        a.paymaster->Some_0.verification_gas_limit == b.paymaster->Some_0.verification_gas_limit,
        a.paymaster->Some_0.post_op_gas_limit == b.paymaster->Some_0.post_op_gas_limit,
        a.paymaster->Some_0.data@ == b.paymaster->Some_0.data@,
{
    let pa = a.paymaster->Some_0;
    let pb = b.paymaster->Some_0;
    lemma_be16_len(pa.verification_gas_limit);
    lemma_be16_len(pb.verification_gas_limit);
    lemma_be16_len(pa.post_op_gas_limit);
    lemma_be16_len(pb.post_op_gas_limit);
    let ta = be16(pa.verification_gas_limit) + be16(pa.post_op_gas_limit) + pa.data@;
    let tb = be16(pb.verification_gas_limit) + be16(pb.post_op_gas_limit) + pb.data@;
    assert(spec_paymaster_blob(a) =~= pa.paymaster.bytes@ + ta);
    assert(spec_paymaster_blob(b) =~= pb.paymaster.bytes@ + tb);
    lemma_concat_split(pa.paymaster.bytes@, ta, pb.paymaster.bytes@, tb);
    let ua = be16(pa.post_op_gas_limit) + pa.data@;
    let ub = be16(pb.post_op_gas_limit) + pb.data@;
    assert(ta =~= be16(pa.verification_gas_limit) + ua);
    assert(tb =~= be16(pb.verification_gas_limit) + ub);
    lemma_concat_split(be16(pa.verification_gas_limit), ua, be16(pb.verification_gas_limit), ub);
    lemma_be16_injective(pa.verification_gas_limit, pb.verification_gas_limit);
    lemma_concat_split(be16(pa.post_op_gas_limit), pa.data@, be16(pb.post_op_gas_limit), pb.data@);
    lemma_be16_injective(pa.post_op_gas_limit, pb.post_op_gas_limit);
}

} // verus!
