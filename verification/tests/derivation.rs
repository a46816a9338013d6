use payment_processor::address::convert_to_hash;
use payment_processor::processor::PaymentProcessor;

const FAMILY: &[u8] = b"SiblingChain";

#[test]
fn derive_is_deterministic() {
    let identity = [7u8; 32];
    let first = convert_to_hash(FAMILY, 4001, &identity);
    let second = convert_to_hash(FAMILY, 4001, &identity);
    assert_eq!(first, second);
}

#[test]
fn derive_changes_with_identity() {
    let identity = [7u8; 32];
    let mut other = identity;
    other[31] ^= 1;
    let a = convert_to_hash(FAMILY, 4001, &identity);
    let b = convert_to_hash(FAMILY, 4001, &other);
    assert_ne!(a, b);
}

#[test]
fn derive_changes_with_chain_id() {
    let identity = [7u8; 32];
    let a = convert_to_hash(FAMILY, 4001, &identity);
    let b = convert_to_hash(FAMILY, 4002, &identity);
    assert_ne!(a, b);
}

#[test]
fn derive_matches_direct_hash_of_preimage() {
    let identity = [0x42u8; 32];
    let mut preimage: Vec<u8> = Vec::new();
    preimage.extend_from_slice(FAMILY);
    preimage.extend(parity_scale_codec::Encode::encode(&parity_scale_codec::Compact(4001u32)));
    preimage.extend(parity_scale_codec::Encode::encode(&parity_scale_codec::Compact(43u32)));
    preimage.extend_from_slice(b"AccountId32");
    preimage.extend_from_slice(&identity);
    let expected = blake2b_simd::Params::new().hash_length(32).hash(&preimage);
    let derived = convert_to_hash(FAMILY, 4001, &identity);
    assert_eq!(&derived[..], expected.as_bytes());
}

#[test]
fn remote_address_is_derived_from_own_account() {
    let contract = [9u8; 32];
    let p = PaymentProcessor::new([1u8; 32], contract);
    assert_eq!(p.get_ah_address(), convert_to_hash(FAMILY, 4001, &contract));
}
