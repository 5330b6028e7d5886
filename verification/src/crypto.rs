use vstd::prelude::*;

verus! {

// What the cryptographic provider computes is opaque to this library: the
// results below are deterministic functions of their arguments, so each is
// given a name that the contracts of the callers speak of exactly.

/// The SHA-256 digest of `data`.
pub uninterp spec fn sha256_of(data: Seq<u8>) -> Seq<u8>;

/// The HMAC-SHA1 tag over `data` under `key`.
pub uninterp spec fn hmac_sha1_of(key: Seq<u8>, data: Seq<u8>) -> Seq<u8>;

/// The AES-CBC ciphertext of `data` under `key` and `iv`, with PKCS padding
/// applied to `data` first.
pub uninterp spec fn aes_cbc_pkcs_of(key: Seq<u8>, iv: Seq<u8>, data: Seq<u8>) -> Seq<u8>;

/// Whether `sig` (raw `r || s`, 32 bytes each) is a valid ECDSA signature of
/// `digest` under the NIST P-256 public key `pk` (uncompressed point bytes).
/// False as well when `pk` does not encode a point of the curve.
pub uninterp spec fn ecdsa_verify_of(pk: Seq<u8>, sig: Seq<u8>, digest: Seq<u8>) -> bool;

/// An opaque error of the cryptographic provider.
#[verifier::external_type_specification]
#[verifier::external_body]
pub struct ExErrorStack(openssl::error::ErrorStack);

/// Relies on openssl's EcKey::generate on the NIST P-256 group, with
/// EcPointRef::to_bytes in uncompressed form (one 0x04 tag byte and two
/// 32-byte coordinates) and BigNumRef::to_vec_padded for the 32-byte private
/// scalar. The key is drawn from the provider's randomness, so nothing more
/// is promised of the bytes.
#[verifier::external_body]
pub(crate) fn ec_generate_key_pair() -> (r: Result<(Vec<u8>, Vec<u8>), openssl::error::ErrorStack>)
    ensures
        r matches Ok(p) ==> p.0@.len() == 65 && p.0@[0] == 4 && p.1@.len() == 32,
{
    let group = openssl::ec::EcGroup::from_curve_name(openssl::nid::Nid::X9_62_PRIME256V1)?;
    let key = openssl::ec::EcKey::generate(&group)?;
    let mut ctx = openssl::bn::BigNumContext::new()?;
    let public = key.public_key().to_bytes(
        &group,
        openssl::ec::PointConversionForm::UNCOMPRESSED,
        &mut ctx,
    )?;
    let scalar = key.private_key().to_vec_padded(32)?;
    Ok((public, scalar))
}

/// Relies on openssl's sha::sha256: the 32-byte SHA-256 digest, a function
/// of the input bytes alone.
#[verifier::external_body]
pub(crate) fn sha256_digest(data: &Vec<u8>) -> (r: Vec<u8>)
    ensures
        r@ == sha256_of(data@),
        r@.len() == 32,
{
    openssl::sha::sha256(data).to_vec()
}

/// Relies on openssl's EcdsaSig::sign over a P-256 key rebuilt from the raw
/// scalar and public point, with the signature returned as `r || s`, each
/// half padded to 32 bytes. ECDSA draws a fresh nonce, so only the length is
/// promised.
#[verifier::external_body]
pub(crate) fn ecdsa_sign_digest(sk: &Vec<u8>, pk: &Vec<u8>, digest: &Vec<u8>) -> (r: Result<
    Vec<u8>,
    openssl::error::ErrorStack,
>)
    requires
        sk@.len() == 32,
        pk@.len() == 65,
        digest@.len() == 32,
    ensures
        r matches Ok(sig) ==> sig@.len() == 64,
{
    let group = openssl::ec::EcGroup::from_curve_name(openssl::nid::Nid::X9_62_PRIME256V1)?;
    let mut ctx = openssl::bn::BigNumContext::new()?;
    let point = openssl::ec::EcPoint::from_bytes(&group, pk, &mut ctx)?;
    let scalar = openssl::bn::BigNum::from_slice(sk)?;
    let key = openssl::ec::EcKey::from_private_components(&group, &scalar, &point)?;
    let sig = openssl::ecdsa::EcdsaSig::sign(digest, &key)?;
    let mut out = sig.r().to_vec_padded(32)?;
    out.extend_from_slice(&sig.s().to_vec_padded(32)?);
    Ok(out)
}

/// Relies on openssl's EcdsaSigRef::verify over a P-256 key rebuilt from the
/// public point, the signature taken as `r || s`. The outcome is a function
/// of the arguments alone; a key or point the provider rejects verifies as
/// false.
#[verifier::external_body]
pub(crate) fn ecdsa_verify_digest(pk: &Vec<u8>, sig: &Vec<u8>, digest: &Vec<u8>) -> (r: Result<
    bool,
    openssl::error::ErrorStack,
>)
    requires
        sig@.len() == 64,
        digest@.len() == 32,
    ensures
        (r matches Ok(b) && b) <==> ecdsa_verify_of(pk@, sig@, digest@),
{
    let group = openssl::ec::EcGroup::from_curve_name(openssl::nid::Nid::X9_62_PRIME256V1)?;
    let mut ctx = openssl::bn::BigNumContext::new()?;
    let point = openssl::ec::EcPoint::from_bytes(&group, pk, &mut ctx)?;
    let key = openssl::ec::EcKey::from_public_key(&group, &point)?;
    let r_num = openssl::bn::BigNum::from_slice(&sig[0..32])?;
    let s_num = openssl::bn::BigNum::from_slice(&sig[32..64])?;
    let parsed = openssl::ecdsa::EcdsaSig::from_private_components(r_num, s_num)?;
    parsed.verify(digest, &key)
}

/// Relies on openssl's Signer with an HMAC PKey over SHA-1: the 20-byte tag,
/// a function of key and data alone. PKey::hmac hands the key length to the
/// provider as a C int and panics on more, so the key is bounded here.
#[verifier::external_body]
pub(crate) fn hmac_sha1_raw(key: &Vec<u8>, data: &Vec<u8>) -> (r: Result<
    Vec<u8>,
    openssl::error::ErrorStack,
>)
    requires
        key@.len() <= 0x7fff_ffff,
    ensures
        r matches Ok(tag) ==> tag@ == hmac_sha1_of(key@, data@) && tag@.len() == 20,
{
    let pkey = openssl::pkey::PKey::hmac(key)?;
    let mut signer = openssl::sign::Signer::new(openssl::hash::MessageDigest::sha1(), &pkey)?;
    signer.update(data)?;
    signer.sign_to_vec()
}

/// Relies on openssl's symm::encrypt with the AES-128-CBC cipher, which pads
/// the data to the next 16-byte boundary (PKCS) before encrypting, so the
/// ciphertext is one padded block longer than the data rounded down. The
/// cipher update hands the data length to the provider as a C int and
/// panics on more, so the data is bounded here.
#[verifier::external_body]
pub(crate) fn aes128_cbc_encrypt(key: &Vec<u8>, iv: &Vec<u8>, data: &Vec<u8>) -> (r: Result<
    Vec<u8>,
    openssl::error::ErrorStack,
>)
    requires
        key@.len() == 16,
        iv@.len() == 16,
        data@.len() <= 0x7fff_ffff,
    ensures
        r matches Ok(ct) ==> ct@ == aes_cbc_pkcs_of(key@, iv@, data@) && ct@.len() == data@.len()
            + 16 - (data@.len() % 16),
{
    openssl::symm::encrypt(openssl::symm::Cipher::aes_128_cbc(), key, Some(iv), data)
}

/// Relies on openssl's symm::encrypt with the AES-192-CBC cipher; see
/// `aes128_cbc_encrypt`.
#[verifier::external_body]
pub(crate) fn aes192_cbc_encrypt(key: &Vec<u8>, iv: &Vec<u8>, data: &Vec<u8>) -> (r: Result<
    Vec<u8>,
    openssl::error::ErrorStack,
>)
    requires
        key@.len() == 24,
        iv@.len() == 16,
        data@.len() <= 0x7fff_ffff,
    ensures
        r matches Ok(ct) ==> ct@ == aes_cbc_pkcs_of(key@, iv@, data@) && ct@.len() == data@.len()
            + 16 - (data@.len() % 16),
{
    openssl::symm::encrypt(openssl::symm::Cipher::aes_192_cbc(), key, Some(iv), data)
}

/// Relies on openssl's symm::encrypt with the AES-256-CBC cipher; see
/// `aes128_cbc_encrypt`.
#[verifier::external_body]
pub(crate) fn aes256_cbc_encrypt(key: &Vec<u8>, iv: &Vec<u8>, data: &Vec<u8>) -> (r: Result<
    Vec<u8>,
    openssl::error::ErrorStack,
>)
    requires
        key@.len() == 32,
        iv@.len() == 16,
        data@.len() <= 0x7fff_ffff,
    ensures
        r matches Ok(ct) ==> ct@ == aes_cbc_pkcs_of(key@, iv@, data@) && ct@.len() == data@.len()
            + 16 - (data@.len() % 16),
{
    openssl::symm::encrypt(openssl::symm::Cipher::aes_256_cbc(), key, Some(iv), data)
}

/// Relies on openssl's rand::rand_bytes: `len` bytes of provider randomness,
/// of which nothing more can be promised. The call hands the buffer length
/// to the provider as a C int and panics on more, so it is bounded here.
#[verifier::external_body]
pub(crate) fn random_bytes(len: usize) -> (r: Result<Vec<u8>, openssl::error::ErrorStack>)
    requires
        len <= 0x7fff_ffff,
    ensures
        r matches Ok(b) ==> b@.len() == len,
{
    let mut buf = vec![0u8; len];
    openssl::rand::rand_bytes(&mut buf)?;
    Ok(buf)
}

} // verus!
