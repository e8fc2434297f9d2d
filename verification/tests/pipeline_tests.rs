use userop_hash::compose::pack;
use userop_hash::digest::field_digest;
use userop_hash::encode::{encode_v6, u256_to_be_bytes};
use userop_hash::hasher::{finalize, hash_operation, pack_operation_v7, user_operation_hash};
use userop_hash::hexcodec::{decode_hex, encode_hex};
use userop_hash::model::{
    Address, FactoryGroup, OperationV6, OperationV7, PaymasterGroup, RawOperation, U256,
};

fn address_from_hex(s: &str) -> Address {
    Address::from_hex(s).unwrap()
}

fn v6_fixture_operation() -> OperationV6 {
    let call_data = decode_hex(
        "0x0000189a0000000000000000000000003079b249dfde4692d7844aa261f8cf7d927a0da5000000000000000000000000000000000000000000000000000000000000000100000000000000000000000000000000000000000000000000000000000000600000000000000000000000000000000000000000000000000000000000000000",
    )
    .unwrap();
    OperationV6 {
        sender: address_from_hex("0xe6dBb5C8696d2E0f90B875cbb6ef26E3bBa575AC"),
        nonce: U256::from_u64(1617),
        init_code_digest: field_digest(&[]),
        call_data_digest: field_digest(&call_data),
        call_gas_limit: U256::from_u64(14177),
        verification_gas_limit: U256::from_u64(54701),
        pre_verification_gas: U256::from_u64(59393),
        max_fee_per_gas: U256::from_u64(18000000000),
        max_priority_fee_per_gas: U256::from_u64(17999999985),
        paymaster_and_data_digest: field_digest(&[]),
    }
}

fn v7_fixture_operation() -> OperationV7 {
    let call_data = decode_hex(
        "0xe9ae5c53000000000000000000000000000000000000000000000000000000000000000000000000000000000000000000000000000000000000000000000000000000400000000000000000000000000000000000000000000000000000000000000078ba45f9ef3e4fb871113f68217604af3626de8c440000000000000000000000000000000000000000000000000000000000000000a9059cbb0000000000000000000000003c44cdddb6a900fa2b585dd299e03d12fa4293bc0000000000000000000000000000000000000000000000000de0b6b3a76400000000000000000000",
    )
    .unwrap();
    OperationV7 {
        sender: address_from_hex("0xc10035C6c74e8Af054897Ff6092Dc3eC49e2eFc6"),
        nonce: U256::from_parts(
            0x9d00dc64a140aa3e981100a9beca,
            0x4e685f962f0cf6c90000000000000000,
        ),
        factory: None,
        call_data,
        call_gas_limit: U256::from_u64(1500000),
        verification_gas_limit: U256::from_u64(1500000),
        pre_verification_gas: U256::from_u64(2000000),
        max_fee_per_gas: U256::from_u64(20000000000),
        max_priority_fee_per_gas: U256::from_u64(10000000000),
        paymaster: None,
    }
}

#[test]
fn v6_fixture_final_hash() {
    let op = RawOperation::V6(v6_fixture_operation());
    let entry_point = address_from_hex("0x5FF137D4b0FDCD49DcA30c7CfF57f0d59f1b61E2");
    let hash = user_operation_hash(&op, &entry_point, 31337);
    assert_eq!(
        encode_hex(&hash),
        "3ebaca1f4a7fbd98732f9b8aece21858bf3794c6371b47405847546b908a0374"
    );
}

#[test]
fn v6_fixture_operation_hash() {
    let op = RawOperation::V6(v6_fixture_operation());
    let hash = hash_operation(&op);
    assert_eq!(
        encode_hex(&hash),
        "b2b5bd9fe36a9a6dbb3e2388a256547f34f6112c514c3cb71953c5353b8b12cf"
    );
}

#[test]
fn v7_fixture_final_hash() {
    let op = RawOperation::V7(v7_fixture_operation());
    let entry_point = address_from_hex("0x0000000071727De22E5E9d8BAf0edAc6f37da032");
    let hash = user_operation_hash(&op, &entry_point, 31337);
    assert_eq!(
        encode_hex(&hash),
        "e0393a3bd534989a3f7cc522c6bb3be3875e3cafb56e02f25eba6f25fc658158"
    );
}

#[test]
fn v7_fixture_operation_hash() {
    let op = RawOperation::V7(v7_fixture_operation());
    let hash = hash_operation(&op);
    assert_eq!(
        encode_hex(&hash),
        "28476f1c7f63b00c5663d2831e4a3745e3a5a31cce1f0576983bd44f83bc8d9a"
    );
}

#[test]
fn hashing_is_deterministic() {
    let op = RawOperation::V7(v7_fixture_operation());
    let entry_point = address_from_hex("0x0000000071727De22E5E9d8BAf0edAc6f37da032");
    let first = user_operation_hash(&op, &entry_point, 31337);
    let second = user_operation_hash(&op, &entry_point, 31337);
    assert_eq!(first, second);

    let op6 = RawOperation::V6(v6_fixture_operation());
    let first6 = user_operation_hash(&op6, &entry_point, 31337);
    let second6 = user_operation_hash(&op6, &entry_point, 31337);
    assert_eq!(first6, second6);
}

#[test]
fn changing_one_field_changes_the_hash() {
    let entry_point = address_from_hex("0x0000000071727De22E5E9d8BAf0edAc6f37da032");
    let base = user_operation_hash(&RawOperation::V7(v7_fixture_operation()), &entry_point, 31337);

    let mut changed_nonce = v7_fixture_operation();
    changed_nonce.nonce = U256::from_u64(1618);
    assert_ne!(
        user_operation_hash(&RawOperation::V7(changed_nonce), &entry_point, 31337),
        base
    );

    let mut changed_gas = v7_fixture_operation();
    changed_gas.call_gas_limit = U256::from_u64(1500001);
    assert_ne!(
        user_operation_hash(&RawOperation::V7(changed_gas), &entry_point, 31337),
        base
    );

    let mut changed_data = v7_fixture_operation();
    changed_data.call_data.push(0);
    assert_ne!(
        user_operation_hash(&RawOperation::V7(changed_data), &entry_point, 31337),
        base
    );
}

#[test]
fn swapped_gas_pair_changes_the_hash() {
    let entry_point = address_from_hex("0x0000000071727De22E5E9d8BAf0edAc6f37da032");
    let base = user_operation_hash(&RawOperation::V7(v7_fixture_operation()), &entry_point, 31337);
    let mut swapped = v7_fixture_operation();
    swapped.max_fee_per_gas = U256::from_u64(10000000000);
    swapped.max_priority_fee_per_gas = U256::from_u64(20000000000);
    assert_ne!(
        user_operation_hash(&RawOperation::V7(swapped), &entry_point, 31337),
        base
    );
}

#[test]
fn pack_is_order_sensitive() {
    assert_ne!(pack(1, 2), pack(2, 1));
}

#[test]
fn pack_exact_layout() {
    let word = pack(0x0102, 3);
    let mut expected = vec![0u8; 32];
    expected[14] = 1;
    expected[15] = 2;
    expected[31] = 3;
    assert_eq!(word, expected);
}

#[test]
fn pack_max_value_is_not_truncated() {
    let word = pack(u128::MAX, 0);
    let mut expected = vec![0xffu8; 16];
    expected.extend_from_slice(&[0u8; 16]);
    assert_eq!(word, expected);
}

#[test]
fn gas_above_128_bits_is_silently_truncated() {
    let entry_point = address_from_hex("0x0000000071727De22E5E9d8BAf0edAc6f37da032");
    let base = user_operation_hash(&RawOperation::V7(v7_fixture_operation()), &entry_point, 31337);
    // A call gas limit of exactly 2^128 + 1500000: the high half is dropped.
    let mut overflowing = v7_fixture_operation();
    overflowing.call_gas_limit = U256::from_parts(1, 1500000);
    assert_eq!(
        user_operation_hash(&RawOperation::V7(overflowing), &entry_point, 31337),
        base
    );
}

#[test]
fn absent_groups_digest_as_empty_buffer() {
    let packed = pack_operation_v7(&v7_fixture_operation());
    let empty_digest = field_digest(&[]);
    assert_eq!(packed.init_code_digest, empty_digest);
    assert_eq!(packed.paymaster_and_data_digest, empty_digest);
    // The digest of the zero-length buffer is the well-known constant.
    assert_eq!(
        encode_hex(&empty_digest),
        "c5d2460186f7233c927e7db2dcc703c0e500b653ca82273b7bfad8045d85a470"
    );
}

#[test]
fn present_groups_change_the_digests() {
    let mut op = v7_fixture_operation();
    op.factory = Some(FactoryGroup {
        factory: address_from_hex("0x3079b249dfde4692d7844aa261f8cf7d927a0da5"),
        factory_data: vec![1, 2, 3],
    });
    op.paymaster = Some(PaymasterGroup {
        paymaster: address_from_hex("0xba45f9ef3e4fb871113f68217604af3626de8c44"),
        verification_gas_limit: 70000,
        post_op_gas_limit: 80000,
        data: vec![9, 9],
    });
    let packed = pack_operation_v7(&op);
    let empty_digest = field_digest(&[]);
    assert_ne!(packed.init_code_digest, empty_digest);
    assert_ne!(packed.paymaster_and_data_digest, empty_digest);

    // The composed factory buffer is the address followed by the call data.
    let mut init_code = decode_hex("0x3079b249dfde4692d7844aa261f8cf7d927a0da5")
        .unwrap();
    init_code.extend_from_slice(&[1, 2, 3]);
    assert_eq!(packed.init_code_digest, field_digest(&init_code));

    // The composed paymaster buffer is the address, the two 16-byte
    // big-endian gas limits, then the data.
    let mut blob = decode_hex("0xba45f9ef3e4fb871113f68217604af3626de8c44").unwrap();
    blob.extend_from_slice(&70000u128.to_be_bytes());
    blob.extend_from_slice(&80000u128.to_be_bytes());
    blob.extend_from_slice(&[9, 9]);
    assert_eq!(packed.paymaster_and_data_digest, field_digest(&blob));
}

#[test]
fn encode_v6_exact_layout() {
    let op = OperationV6 {
        sender: Address::new(vec![0x11; 20]),
        nonce: U256::from_u64(5),
        init_code_digest: vec![0x22; 32],
        call_data_digest: vec![0x33; 32],
        call_gas_limit: U256::from_u64(6),
        verification_gas_limit: U256::from_u64(7),
        pre_verification_gas: U256::from_u64(8),
        max_fee_per_gas: U256::from_u64(9),
        max_priority_fee_per_gas: U256::from_u64(10),
        paymaster_and_data_digest: vec![0x44; 32],
    };
    let encoded = encode_v6(&op);
    assert_eq!(encoded.len(), 320);
    let mut expected = vec![0u8; 12];
    expected.extend_from_slice(&[0x11; 20]);
    for (value, digest) in [
        (5u8, None),
        (0, Some(0x22)),
        (0, Some(0x33)),
        (6, None),
        (7, None),
        (8, None),
        (9, None),
        (10, None),
        (0, Some(0x44)),
    ] {
        match digest {
            Some(b) => expected.extend_from_slice(&[b; 32]),
            None => {
                expected.extend_from_slice(&[0u8; 31]);
                expected.push(value);
            }
        }
    }
    assert_eq!(encoded, expected);
}

#[test]
fn u256_big_endian_layout() {
    let v = U256::from_parts(1, 2);
    let bytes = u256_to_be_bytes(v);
    let mut expected = vec![0u8; 32];
    expected[15] = 1;
    expected[31] = 2;
    assert_eq!(bytes, expected);
}

#[test]
fn finalize_matches_manual_preimage() {
    let op = RawOperation::V6(v6_fixture_operation());
    let entry_point = address_from_hex("0x5FF137D4b0FDCD49DcA30c7CfF57f0d59f1b61E2");
    let op_hash = hash_operation(&op);
    let mut preimage = op_hash.clone();
    preimage.extend_from_slice(&[0u8; 12]);
    preimage.extend_from_slice(&entry_point.bytes);
    preimage.extend_from_slice(&[0u8; 24]);
    preimage.extend_from_slice(&31337u64.to_be_bytes());
    assert_eq!(finalize(&op_hash, &entry_point, 31337), field_digest(&preimage));
}

#[test]
fn default_v7_operation_is_empty() {
    let op = OperationV7::default();
    assert_eq!(op.sender.bytes, vec![0u8; 20]);
    assert_eq!(op.nonce, U256::from_u64(0));
    assert!(op.factory.is_none());
    assert!(op.call_data.is_empty());
    assert_eq!(op.call_gas_limit, U256::from_u64(0));
    assert_eq!(op.verification_gas_limit, U256::from_u64(0));
    assert_eq!(op.pre_verification_gas, U256::from_u64(0));
    assert_eq!(op.max_fee_per_gas, U256::from_u64(0));
    assert_eq!(op.max_priority_fee_per_gas, U256::from_u64(0));
    assert!(op.paymaster.is_none());
}
