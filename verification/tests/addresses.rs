use api::batch::build_transfer_batch;
use api::services::{generate_addresses, get_solidity_address, ADDRESS_GENERATOR_SEED};
use api::types::{Address, AddressError, BatchError};
use secp256k1::rand::{rngs, SeedableRng};
use secp256k1::Secp256k1;

#[test]
fn generated_addresses_have_the_requested_count_and_shape() {
    let accounts = generate_addresses(4).unwrap();
    assert_eq!(accounts.len(), 4);
    for account in &accounts {
        assert_eq!(account.len(), 42);
        assert!(account.starts_with("0x"));
        assert!(account[2..]
            .chars()
            .all(|c| c.is_ascii_digit() || ('a'..='f').contains(&c)));
    }
}

#[test]
fn zero_addresses_is_an_empty_list() {
    let accounts = generate_addresses(0).unwrap();
    assert!(accounts.is_empty());
}

#[test]
fn generated_address_matches_a_direct_derivation() {
    let secp = Secp256k1::new();
    let mut rng = rngs::StdRng::seed_from_u64(ADDRESS_GENERATOR_SEED);
    let (_secret_key, public_key) = secp.generate_keypair(&mut rng);
    let serialized = public_key.serialize_uncompressed();
    let digest = ethers_core::utils::keccak256(&serialized[1..]);
    let expected = format!("0x{}", hex::encode(&digest[12..]));

    let accounts = generate_addresses(2).unwrap();
    assert_eq!(accounts[0], expected);
    assert_eq!(accounts[1], expected);
}

#[test]
fn solidity_address_decodes_to_its_bytes() {
    let address = get_solidity_address("0x000102030405060708090a0b0c0d0e0f10111213").unwrap();
    let expected: Vec<u8> = (0u8..=0x13).collect();
    assert_eq!(address.bytes, expected);
}

#[test]
fn solidity_address_accepts_mixed_case_and_no_marker() {
    let address = get_solidity_address("DEADbeef00000000000000000000000000000000").unwrap();
    assert_eq!(&address.bytes[..4], &[0xde, 0xad, 0xbe, 0xef]);
}

#[test]
fn solidity_address_refuses_bad_hex_and_bad_length() {
    assert_eq!(
        get_solidity_address("0xzz").unwrap_err(),
        AddressError::InvalidHex
    );
    assert_eq!(
        get_solidity_address("0xabc").unwrap_err(),
        AddressError::InvalidHex
    );
    assert_eq!(
        get_solidity_address("0xabcd").unwrap_err(),
        AddressError::WrongLength
    );
}

#[test]
fn batch_pairs_amounts_with_recipients_in_order() {
    let amounts: Vec<u128> = vec![7, 0, 9];
    let recipients: Vec<Address> = vec![
        Address { bytes: vec![1u8; 20] },
        Address { bytes: vec![2u8; 20] },
        Address { bytes: vec![3u8; 20] },
    ];
    let batch = build_transfer_batch(&amounts, &recipients).unwrap();
    assert_eq!(batch.entries.len(), 3);
    for i in 0..3 {
        assert_eq!(batch.entries[i].amount, amounts[i]);
        assert_eq!(batch.entries[i].recipient.bytes, recipients[i].bytes);
    }
    assert_eq!(batch.aggregate_total, 16);
}

#[test]
fn batch_refuses_misaligned_inputs() {
    let amounts: Vec<u128> = vec![7, 8];
    let recipients: Vec<Address> = vec![Address { bytes: vec![1u8; 20] }];
    assert_eq!(
        build_transfer_batch(&amounts, &recipients).unwrap_err(),
        BatchError::LengthMismatch
    );
}

#[test]
fn batch_aggregate_saturates_instead_of_wrapping() {
    let amounts: Vec<u128> = vec![u128::MAX, 1];
    let recipients: Vec<Address> = vec![
        Address { bytes: vec![1u8; 20] },
        Address { bytes: vec![2u8; 20] },
    ];
    let batch = build_transfer_batch(&amounts, &recipients).unwrap();
    assert_eq!(batch.aggregate_total, u128::MAX);
}
