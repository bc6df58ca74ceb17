use blake2::digest::consts::U32;
use blake2::{Blake2b, Digest};
use nimiq_consensus::bls::{CompressedPublicKey, CompressedSignature};
use nimiq_consensus::hashes::Blake2bHash;
use nimiq_consensus::vrf::{VrfError, VrfRng, VrfSeed, VrfUseCase};

type Blake2b256 = Blake2b<U32>;

fn reference_digest(input: &[u8]) -> [u8; 32] {
    let mut hasher = Blake2b256::new();
    hasher.update(input);
    hasher.finalize().into()
}

#[test]
fn public_key_hex_is_two_lowercase_digits_per_byte() {
    let mut bytes = [0u8; 96];
    for (i, b) in bytes.iter_mut().enumerate() {
        *b = i as u8;
    }
    let key = CompressedPublicKey::new(bytes);
    assert_eq!(
        key.to_hex(),
        "000102030405060708090a0b0c0d0e0f101112131415161718191a1b1c1d1e1f2021222324\
         25262728292a2b2c2d2e2f303132333435363738393a3b3c3d3e3f404142434445464748\
         494a4b4c4d4e4f505152535455565758595a5b5c5d5e5f"
    );
}

#[test]
fn signature_hex_is_two_lowercase_digits_per_byte() {
    let mut bytes = [0u8; 48];
    for (i, b) in bytes.iter_mut().enumerate() {
        *b = 255 - i as u8;
    }
    let signature = CompressedSignature::new(bytes);
    assert_eq!(
        signature.to_hex(),
        "fffefdfcfbfaf9f8f7f6f5f4f3f2f1f0efeeedecebeae9e8e7e6e5e4e3e2e1e0dfdedddcdb\
         dad9d8d7d6d5d4d3d2d1d0"
    );
}

#[test]
fn compressed_keys_compare_by_their_bytes() {
    let a = CompressedPublicKey::new([7; 96]);
    let b = CompressedPublicKey::new([7; 96]);
    let mut other_bytes = [7u8; 96];
    other_bytes[95] = 8;
    let c = CompressedPublicKey::new(other_bytes);
    assert!(a == b);
    assert!(a != c);
    assert!(VrfError::Forged != VrfError::InvalidSignature);
}

#[test]
fn computed_hash_is_the_blake2b_digest() {
    let input: Vec<u8> = b"hello world".to_vec();
    let hash = Blake2bHash::compute(&input);
    assert_eq!(hash.as_bytes(), &reference_digest(&input)[..]);
    // The digest is a hash of the input, not the input handed back.
    assert_ne!(hash.as_bytes(), &input[..]);
}

#[test]
fn vrf_draws_hash_the_use_case_round_counter_and_signature() {
    let signature = CompressedSignature::new([0xab; 48]);
    let seed = VrfSeed::from(signature);
    let mut rng = seed.rng(VrfUseCase::Seed, 0x01020304);

    // The first draw hashes: use-case byte, round (big-endian), counter
    // zero (big-endian), then the signature's bytes.
    let mut expected_input: Vec<u8> = Vec::new();
    expected_input.push(1);
    expected_input.extend_from_slice(&[0x01, 0x02, 0x03, 0x04]);
    expected_input.extend_from_slice(&[0, 0, 0, 0, 0, 0, 0, 0]);
    expected_input.extend_from_slice(&[0xab; 48]);

    let first = rng.next_hash();
    assert_eq!(first.as_bytes(), &reference_digest(&expected_input)[..]);

    // The second draw advances only the counter.
    let mut second_input = expected_input.clone();
    second_input[12] = 1;
    let second = rng.next_hash();
    assert_eq!(second.as_bytes(), &reference_digest(&second_input)[..]);
    assert!(!(first == second));

    // The stream is deterministic: the same seed yields the same draws.
    let mut again = VrfRng::new(&signature, VrfUseCase::Seed, 0x01020304);
    assert!(again.next_hash() == first);
    assert!(again.next_hash() == second);
}

#[test]
fn vrf_u64_reads_the_first_eight_digest_bytes_big_endian() {
    let signature = CompressedSignature::new([0x11; 48]);
    let seed = VrfSeed::from(signature);

    let mut expected_input: Vec<u8> = Vec::new();
    expected_input.push(3);
    expected_input.extend_from_slice(&[0, 0, 0, 9]);
    expected_input.extend_from_slice(&[0, 0, 0, 0, 0, 0, 0, 0]);
    expected_input.extend_from_slice(&[0x11; 48]);
    let digest = reference_digest(&expected_input);
    let expected = u64::from_be_bytes([
        digest[0], digest[1], digest[2], digest[3], digest[4], digest[5], digest[6], digest[7],
    ]);

    let mut rng = seed.rng(VrfUseCase::SlotSelection, 9);
    assert_eq!(rng.next_u64(), expected);
}

#[test]
fn the_next_seed_is_signed_over_the_prefixed_current_signature() {
    let signature = CompressedSignature::new([0x5c; 48]);
    let seed = VrfSeed::from(signature);
    let mut expected_input: Vec<u8> = Vec::new();
    expected_input.push(1);
    expected_input.extend_from_slice(&[0x5c; 48]);
    let digest = seed.next_seed_digest();
    assert_eq!(digest.as_bytes(), &reference_digest(&expected_input)[..]);
}

#[test]
fn use_cases_salt_the_stream_differently() {
    let signature = CompressedSignature::new([0x42; 48]);
    let seed = VrfSeed::from(signature);
    let a = seed.rng(VrfUseCase::ValidatorSelection, 1).next_hash();
    let b = seed.rng(VrfUseCase::RewardDistribution, 1).next_hash();
    assert!(!(a == b));
}
