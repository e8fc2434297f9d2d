//! The data model: addresses, 256-bit words, and the two operation shapes.

use vstd::prelude::*;

use crate::words::{be16, zeros};

verus! {

/// A 20-byte account address.
pub struct Address {
    pub bytes: Vec<u8>,
}

impl Address {
    /// An address is exactly 20 bytes long.
    pub open spec fn wf(self) -> bool {
        self.bytes@.len() == 20
    }

    /// Builds an address from its 20 bytes.
    pub fn new(bytes: Vec<u8>) -> (r: Address)
        requires
            bytes@.len() == 20,
        ensures
            r.wf(),
            r.bytes@ == bytes@,
    {
        Address { bytes }
    }

    /// The all-zero address.
    pub fn zero() -> (r: Address)
        ensures
            r.wf(),
            r.bytes@ == zeros(20),
    {
        Address { bytes: crate::words::zero_bytes(20) }
    }

    /// Parses an address from a hexadecimal literal, with one optional
    /// `0x`/`0X` prefix. Fails exactly when the literal does not decode
    /// or does not spell 20 bytes.
    pub fn from_hex(s: &str) -> (r: Result<Address, crate::hexcodec::DecodeError>)
        ensures
            match r {
                Ok(a) => {
                    &&& a.wf()
                    &&& crate::hexcodec::spec_hex_decode(s@) == Some(a.bytes@)
                },
                Err(_) => crate::hexcodec::spec_hex_decode(s@) is None || crate::hexcodec::spec_hex_decode(
                    s@,
                )->Some_0.len() != 20,
            },
    {
        match crate::hexcodec::decode_hex(s) {
            Ok(bytes) => {
                if bytes.len() == 20 {
                    Ok(Address { bytes })
                } else {
                    Err(crate::hexcodec::DecodeError)
                }
            },
            Err(e) => Err(e),
        }
    }
}

/// A 256-bit unsigned integer, held as its high and low 128-bit halves.
#[derive(Clone, Copy, Debug, PartialEq, Eq, Structural)]
pub struct U256 {
    pub hi: u128,
    pub lo: u128,
}

/// Big-endian 32-byte representation of a 256-bit value.
pub open spec fn u256_be(v: U256) -> Seq<u8> {
    be16(v.hi) + be16(v.lo)
}

/// The numeric value of a 256-bit word.
pub open spec fn u256_val(v: U256) -> nat {
    v.hi as nat * 0x100000000000000000000000000000000nat + v.lo as nat
}

impl U256 {
    /// Builds a 256-bit value from its two 128-bit halves.
    pub fn from_parts(hi: u128, lo: u128) -> (r: U256)
        ensures
            r.hi == hi,
            r.lo == lo,
    {
        U256 { hi, lo }
    }

    /// Embeds a 128-bit value.
    pub fn from_u128(lo: u128) -> (r: U256)
        ensures
            r.hi == 0,
            r.lo == lo,
            u256_val(r) == lo,
    {
        U256 { hi: 0, lo }
    }

    /// Embeds a 64-bit value.
    pub fn from_u64(v: u64) -> (r: U256)
        ensures
            r.hi == 0,
            r.lo == v,
            u256_val(r) == v,
    {
        U256 { hi: 0, lo: v as u128 }
    }

    /// The zero word.
    pub fn zero() -> (r: U256)
        ensures
            r.hi == 0,
            r.lo == 0,
            u256_val(r) == 0,
    {
        U256 { hi: 0, lo: 0 }
    }
}

/// Equal big-endian images come only from equal 256-bit values.
pub proof fn lemma_u256_be_injective(a: U256, b: U256)
    requires
        u256_be(a) == u256_be(b),
    ensures
        a == b,
{
    assert(be16(a.hi) =~= u256_be(a).take(16)) by {
        vstd::bytes::lemma_auto_spec_u128_to_from_le_bytes();
    }
    assert(be16(b.hi) =~= u256_be(b).take(16)) by {
        vstd::bytes::lemma_auto_spec_u128_to_from_le_bytes();
    }
    assert(be16(a.lo) =~= u256_be(a).skip(16)) by {
        vstd::bytes::lemma_auto_spec_u128_to_from_le_bytes();
    }
    assert(be16(b.lo) =~= u256_be(b).skip(16)) by {
        vstd::bytes::lemma_auto_spec_u128_to_from_le_bytes();
    }
    crate::words::lemma_be16_injective(a.hi, b.hi);
    crate::words::lemma_be16_injective(a.lo, b.lo);
}

/// A version-0.6 operation, every variable-length field already reduced to
/// its 32-byte digest by the caller.
pub struct OperationV6 {
    pub sender: Address,
    pub nonce: U256,
    pub init_code_digest: Vec<u8>,
    pub call_data_digest: Vec<u8>,
    pub call_gas_limit: U256,
    pub verification_gas_limit: U256,
    pub pre_verification_gas: U256,
    pub max_fee_per_gas: U256,
    pub max_priority_fee_per_gas: U256,
    pub paymaster_and_data_digest: Vec<u8>,
}

impl OperationV6 {
    /// The address is 20 bytes and each digest 32 bytes.
    pub open spec fn wf(self) -> bool {
        &&& self.sender.wf()
        &&& self.init_code_digest@.len() == 32
        &&& self.call_data_digest@.len() == 32
        &&& self.paymaster_and_data_digest@.len() == 32
    }
}

/// The optional deployment group of a version-0.7 operation: a factory
/// address together with the bytes of the call made to it. The two are
/// present or absent together.
pub struct FactoryGroup {
    pub factory: Address,
    pub factory_data: Vec<u8>,
}

impl FactoryGroup {
    pub open spec fn wf(self) -> bool {
        self.factory.wf()
    }
}

/// The optional paymaster group of a version-0.7 operation. All four
/// fields are present or absent together; the two gas limits fit in
/// 128 bits by construction.
pub struct PaymasterGroup {
    pub paymaster: Address,
    pub verification_gas_limit: u128,
    pub post_op_gas_limit: u128,
    pub data: Vec<u8>,
}

impl PaymasterGroup {
    pub open spec fn wf(self) -> bool {
        self.paymaster.wf()
    }
}

/// A version-0.7 operation with its raw variable-length fields.
pub struct OperationV7 {
    pub sender: Address,
    pub nonce: U256,
    pub factory: Option<FactoryGroup>,
    pub call_data: Vec<u8>,
    pub call_gas_limit: U256,
    pub verification_gas_limit: U256,
    pub pre_verification_gas: U256,
    pub max_fee_per_gas: U256,
    pub max_priority_fee_per_gas: U256,
    pub paymaster: Option<PaymasterGroup>,
}

impl OperationV7 {
    pub open spec fn wf(self) -> bool {
        &&& self.sender.wf()
        &&& match self.factory {
            Some(f) => f.wf(),
            None => true,
        }
        &&& match self.paymaster {
            Some(p) => p.wf(),
            None => true,
        }
    }
}

impl Default for OperationV7 {
    /// An empty operation: zero sender, zero numeric fields, no factory,
    /// no call data, no paymaster.
    fn default() -> (r: OperationV7)
        ensures
            r.wf(),
            r.sender.bytes@ == zeros(20),
            r.nonce == (U256 { hi: 0, lo: 0 }),
            r.factory is None,
            r.call_data@ == Seq::<u8>::empty(),
            r.call_gas_limit == (U256 { hi: 0, lo: 0 }),
            r.verification_gas_limit == (U256 { hi: 0, lo: 0 }),
            r.pre_verification_gas == (U256 { hi: 0, lo: 0 }),
            r.max_fee_per_gas == (U256 { hi: 0, lo: 0 }),
            r.max_priority_fee_per_gas == (U256 { hi: 0, lo: 0 }),
            r.paymaster is None,
    {
        OperationV7 {
            sender: Address::zero(),
            nonce: U256::zero(),
            factory: None,
            call_data: Vec::new(),
            call_gas_limit: U256::zero(),
            verification_gas_limit: U256::zero(),
            pre_verification_gas: U256::zero(),
            max_fee_per_gas: U256::zero(),
            max_priority_fee_per_gas: U256::zero(),
            paymaster: None,
        }
    }
}

/// A version-0.7 operation after composition: every variable-length field
/// reduced to its 32-byte digest and the gas pairs packed into single
/// words. Built once per hash request and consumed by the encoder.
pub struct PackedOperationV7 {
    pub sender: Address,
    pub nonce: U256,
    pub init_code_digest: Vec<u8>,
    pub call_data_digest: Vec<u8>,
    pub account_gas_limits: Vec<u8>,
    pub pre_verification_gas: U256,
    pub gas_fees: Vec<u8>,
    pub paymaster_and_data_digest: Vec<u8>,
}

impl PackedOperationV7 {
    /// The address is 20 bytes; each digest and each packed word 32 bytes.
    pub open spec fn wf(self) -> bool {
        &&& self.sender.wf()
        &&& self.init_code_digest@.len() == 32
        &&& self.call_data_digest@.len() == 32
        &&& self.account_gas_limits@.len() == 32
        &&& self.gas_fees@.len() == 32
        &&& self.paymaster_and_data_digest@.len() == 32
    }
}

/// A user operation of either supported on-chain encoding.
pub enum RawOperation {
    V6(OperationV6),
    V7(OperationV7),
}

impl RawOperation {
    pub open spec fn wf(self) -> bool {
        match self {
            RawOperation::V6(op) => op.wf(),
            RawOperation::V7(op) => op.wf(),
        }
    }
}

} // verus!
