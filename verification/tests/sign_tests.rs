use tee_signer::engine::{sign, verify};
use tee_signer::error::TeeError;
use tee_signer::keys::{del_key_pair, gen_key_pair, load};
use tee_signer::store::KeyStore;

#[test]
fn generated_key_loads_and_signs_and_verifies() {
    let mut store = KeyStore::new();
    let pk = gen_key_pair(&mut store).unwrap();
    assert_eq!(pk.len(), 65);
    assert_eq!(pk[0], 0x04);
    load(&store, &pk).unwrap();
    let message = b"a message to protect".to_vec();
    let signature = sign(&store, &pk, &message).unwrap();
    assert_eq!(signature.len(), 64);
    verify(&store, &pk, &signature, &message).unwrap();
}

#[test]
fn round_trip_holds_for_many_messages() {
    let mut store = KeyStore::new();
    let pk = gen_key_pair(&mut store).unwrap();
    let messages: Vec<Vec<u8>> = vec![
        Vec::new(),
        vec![0u8; 32],
        vec![0xFFu8; 1],
        (0..300).map(|i| (i % 256) as u8).collect(),
    ];
    for message in messages {
        let signature = sign(&store, &pk, &message).unwrap();
        verify(&store, &pk, &signature, &message).unwrap();
    }
}

#[test]
fn flipping_any_signature_bit_fails_verification() {
    let mut store = KeyStore::new();
    let pk = gen_key_pair(&mut store).unwrap();
    let message = vec![0u8; 32];
    let signature = sign(&store, &pk, &message).unwrap();
    for byte in 0..signature.len() {
        for bit in [0x01u8, 0x80u8] {
            let mut tampered = signature.clone();
            tampered[byte] ^= bit;
            assert_eq!(
                verify(&store, &pk, &tampered, &message),
                Err(TeeError::SignatureInvalid)
            );
        }
    }
}

#[test]
fn flipping_any_message_bit_fails_verification() {
    let mut store = KeyStore::new();
    let pk = gen_key_pair(&mut store).unwrap();
    let message = b"exactly thirty-two bytes long!!!".to_vec();
    let signature = sign(&store, &pk, &message).unwrap();
    for byte in 0..message.len() {
        for bit in [0x01u8, 0x80u8] {
            let mut tampered = message.clone();
            tampered[byte] ^= bit;
            assert_eq!(
                verify(&store, &pk, &signature, &tampered),
                Err(TeeError::SignatureInvalid)
            );
        }
    }
}

#[test]
fn delete_then_load_and_second_delete_fail() {
    let mut store = KeyStore::new();
    let pk = gen_key_pair(&mut store).unwrap();
    del_key_pair(&mut store, &pk).unwrap();
    assert!(matches!(load(&store, &pk), Err(TeeError::NotFound)));
    assert_eq!(del_key_pair(&mut store, &pk), Err(TeeError::NotFound));
}

#[test]
fn sign_with_unknown_key_is_not_found() {
    let store = KeyStore::new();
    let mut pk = vec![0x04u8];
    pk.extend_from_slice(&[0xABu8; 64]);
    assert_eq!(
        sign(&store, &pk, &b"msg".to_vec()),
        Err(TeeError::NotFound)
    );
    assert_eq!(
        verify(&store, &pk, &vec![0u8; 64], &b"msg".to_vec()),
        Err(TeeError::NotFound)
    );
}

#[test]
fn malformed_stored_scalar_is_a_provider_error() {
    let mut store = KeyStore::new();
    let mut pk = vec![0x04u8];
    pk.extend_from_slice(&[0xCDu8; 64]);
    // A persisted blob of the wrong length cannot populate a key object.
    store.create_raw_object(&pk, &vec![0u8; 31]).unwrap();
    assert!(matches!(load(&store, &pk), Err(TeeError::ProviderError)));
}

#[test]
fn signature_accepted_by_the_provider_directly() {
    // Cross-check against openssl used independently of the library: the
    // signature is raw `r || s` over the SHA-256 digest of the message.
    let mut store = KeyStore::new();
    let pk = gen_key_pair(&mut store).unwrap();
    let message = b"cross-checked message".to_vec();
    let signature = sign(&store, &pk, &message).unwrap();

    let group = openssl::ec::EcGroup::from_curve_name(openssl::nid::Nid::X9_62_PRIME256V1).unwrap();
    let mut ctx = openssl::bn::BigNumContext::new().unwrap();
    let point = openssl::ec::EcPoint::from_bytes(&group, &pk, &mut ctx).unwrap();
    let key = openssl::ec::EcKey::from_public_key(&group, &point).unwrap();
    let digest = openssl::sha::sha256(&message);
    let r = openssl::bn::BigNum::from_slice(&signature[0..32]).unwrap();
    let s = openssl::bn::BigNum::from_slice(&signature[32..64]).unwrap();
    let sig = openssl::ecdsa::EcdsaSig::from_private_components(r, s).unwrap();
    assert!(sig.verify(&digest, &key).unwrap());
}

#[test]
fn signature_made_by_the_provider_directly_verifies() {
    // The converse cross-check: a fresh openssl key pair, persisted through
    // the store the way `gen_key_pair` persists its scalar, verifies a
    // signature openssl made.
    let group = openssl::ec::EcGroup::from_curve_name(openssl::nid::Nid::X9_62_PRIME256V1).unwrap();
    let key = openssl::ec::EcKey::generate(&group).unwrap();
    let mut ctx = openssl::bn::BigNumContext::new().unwrap();
    let pk = key
        .public_key()
        .to_bytes(
            &group,
            openssl::ec::PointConversionForm::UNCOMPRESSED,
            &mut ctx,
        )
        .unwrap();
    let sk = key.private_key().to_vec_padded(32).unwrap();
    let mut store = KeyStore::new();
    store.create_raw_object(&pk, &sk).unwrap();

    let message = b"signed outside the library".to_vec();
    let digest = openssl::sha::sha256(&message);
    let sig = openssl::ecdsa::EcdsaSig::sign(&digest, &key).unwrap();
    let mut raw = sig.r().to_vec_padded(32).unwrap();
    raw.extend_from_slice(&sig.s().to_vec_padded(32).unwrap());
    verify(&store, &pk, &raw, &message).unwrap();
}
