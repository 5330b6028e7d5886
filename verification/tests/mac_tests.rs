use tee_signer::engine::{gen_sym_key, mac_compute, mac_verify, MacAlgorithm};
use tee_signer::error::TeeError;

const FIXTURE_KEY: [u8; 20] = [
    0x31, 0x32, 0x33, 0x34, 0x35, 0x36, 0x37, 0x38, 0x39, 0x30, 0x31, 0x32, 0x33, 0x34, 0x35,
    0x36, 0x37, 0x38, 0x39, 0x30,
];

const FIXTURE_TAG: [u8; 20] = [
    0xcc, 0x93, 0xcf, 0x18, 0x50, 0x8d, 0x94, 0x93, 0x4c, 0x64, 0xb6, 0x5d, 0x8b, 0xa7, 0x66,
    0x7f, 0xb7, 0xcd, 0xe4, 0xb0,
];

#[test]
fn hmac_fixture_tag_matches_the_recorded_reference() {
    let message = vec![0u8; 8];
    let tag = mac_compute(MacAlgorithm::HmacSha1, &FIXTURE_KEY.to_vec(), &message).unwrap();
    assert_eq!(tag, FIXTURE_TAG.to_vec());
}

#[test]
fn hmac_fixture_triple_verifies_and_other_keys_fail() {
    let message = vec![0u8; 8];
    let tag = FIXTURE_TAG.to_vec();
    mac_verify(MacAlgorithm::HmacSha1, &FIXTURE_KEY.to_vec(), &message, &tag).unwrap();
    for position in 0..FIXTURE_KEY.len() {
        let mut other_key = FIXTURE_KEY.to_vec();
        other_key[position] ^= 0x01;
        assert_eq!(
            mac_verify(MacAlgorithm::HmacSha1, &other_key, &message, &tag),
            Err(TeeError::SignatureInvalid)
        );
    }
}

#[test]
fn cbc_mac_tag_is_the_last_block_of_the_padded_ciphertext() {
    // Cross-check against openssl used independently of the library.
    let key = vec![0x2Bu8; 16];
    let data = vec![0x6Bu8; 21];
    let tag = mac_compute(MacAlgorithm::AesCbcMacPkcs5, &key, &data).unwrap();
    assert_eq!(tag.len(), 16);
    let ciphertext = openssl::symm::encrypt(
        openssl::symm::Cipher::aes_128_cbc(),
        &key,
        Some(&[0u8; 16]),
        &data,
    )
    .unwrap();
    assert_eq!(tag, ciphertext[ciphertext.len() - 16..].to_vec());
}

#[test]
fn cbc_mac_accepts_each_aes_key_length() {
    let data = b"some data to authenticate".to_vec();
    for key_len in [16usize, 24, 32] {
        let key = vec![0x5Au8; key_len];
        let tag = mac_compute(MacAlgorithm::AesCbcMacPkcs5, &key, &data).unwrap();
        assert_eq!(tag.len(), 16);
        mac_verify(MacAlgorithm::AesCbcMacPkcs5, &key, &data, &tag).unwrap();
    }
}

#[test]
fn cbc_mac_rejects_other_key_lengths() {
    let data = vec![0u8; 16];
    for key_len in [0usize, 1, 15, 17, 20, 33] {
        let key = vec![0x5Au8; key_len];
        assert_eq!(
            mac_compute(MacAlgorithm::AesCbcMacPkcs5, &key, &data),
            Err(TeeError::BadParameters)
        );
        assert_eq!(
            mac_verify(MacAlgorithm::AesCbcMacPkcs5, &key, &data, &vec![0u8; 16]),
            Err(TeeError::BadParameters)
        );
    }
}

#[test]
fn tampered_cbc_tag_fails_verification() {
    let key = vec![0x10u8; 16];
    let data = b"tamper me".to_vec();
    let tag = mac_compute(MacAlgorithm::AesCbcMacPkcs5, &key, &data).unwrap();
    for position in 0..tag.len() {
        let mut bad_tag = tag.clone();
        bad_tag[position] ^= 0x40;
        assert_eq!(
            mac_verify(MacAlgorithm::AesCbcMacPkcs5, &key, &data, &bad_tag),
            Err(TeeError::SignatureInvalid)
        );
    }
}

#[test]
fn oversized_symmetric_key_request_is_rejected() {
    // The randomness provider takes the length as a C int; the library
    // rejects a longer request instead of reaching the provider.
    assert_eq!(gen_sym_key(0x8000_0000), Err(TeeError::BadParameters));
}

#[test]
fn generated_symmetric_keys_have_the_asked_length_and_vary() {
    let first = gen_sym_key(32).unwrap();
    let second = gen_sym_key(32).unwrap();
    assert_eq!(first.len(), 32);
    assert_eq!(second.len(), 32);
    assert_ne!(first, second);
    assert_eq!(gen_sym_key(0).unwrap().len(), 0);
}
