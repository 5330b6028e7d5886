use vstd::prelude::*;

use crate::bytes::{bytes_eq_fixed_scan, copy_range};
use crate::crypto::{
    aes128_cbc_encrypt, aes192_cbc_encrypt, aes256_cbc_encrypt, aes_cbc_pkcs_of,
    ecdsa_sign_digest, ecdsa_verify_digest, ecdsa_verify_of, hmac_sha1_of, hmac_sha1_raw,
    random_bytes, sha256_digest, sha256_of,
};
use crate::error::TeeError;
use crate::keys::{load, load_spec};
use crate::store::KeyStore;

verus! {

/// Length of the message digest (SHA-256).
pub const HASH_SIZE: usize = 32;

/// Length of a raw P-256 signature: `r || s`, 32 bytes each.
pub const SIGNATURE_SIZE: usize = 64;

/// Length of an AES-CBC MAC tag: one cipher block.
pub const MAC_SIZE: usize = 16;

/// Length of an uncompressed public key: tag byte plus two coordinates.
pub const PUBLIC_KEY_SIZE: usize = 65;

/// Digest-then-sign: computes the SHA-256 digest of `message`, loads the
/// key persisted for `public_key`, and signs the digest (not the raw
/// message) with no additional context data. The signature is the raw
/// `r || s` pair sized to the curve's maximum signature length; if the
/// provider's sign step fails, the call surfaces `SignatureInvalid` and no
/// partial signature escapes.
pub fn sign(store: &KeyStore, public_key: &Vec<u8>, message: &Vec<u8>) -> (r: Result<
    Vec<u8>,
    TeeError,
>)
    requires
        store.wf(),
        public_key@.len() >= 1,
    ensures
        match r {
            Ok(sig) => sig@.len() == SIGNATURE_SIZE && load_spec(store@, public_key@) is Ok,
            Err(TeeError::SignatureInvalid) => load_spec(store@, public_key@) is Ok,
            Err(e) => load_spec(store@, public_key@) == Err::<Seq<u8>, TeeError>(e),
        },
{
    let digest = sha256_digest(message);
    let handle = match load(store, public_key) {
        Ok(h) => h,
        Err(e) => {
            return Err(e);
        },
    };
    match ecdsa_sign_digest(handle.scalar_bytes(), handle.public_key_bytes(), &digest) {
        Ok(sig) => Ok(sig),
        Err(_) => Err(TeeError::SignatureInvalid),
    }
}

/// Digest-then-verify: loads the key persisted for `public_key`, recomputes
/// the SHA-256 digest of `message`, and checks `signature` against it.
/// Success is reported exactly when the signature is the right length and
/// the provider accepts it; every rejection, malformed input included, is
/// normalized to `SignatureInvalid`.
pub fn verify(
    store: &KeyStore,
    public_key: &Vec<u8>,
    signature: &Vec<u8>,
    message: &Vec<u8>,
) -> (r: Result<(), TeeError>)
    requires
        store.wf(),
        public_key@.len() >= 1,
    ensures
        match r {
            Ok(_) => load_spec(store@, public_key@) is Ok && signature@.len() == SIGNATURE_SIZE
                && ecdsa_verify_of(public_key@, signature@, sha256_of(message@)),
            Err(TeeError::SignatureInvalid) => load_spec(store@, public_key@) is Ok && !(
            signature@.len() == SIGNATURE_SIZE && ecdsa_verify_of(
                public_key@,
                signature@,
                sha256_of(message@),
            )),
            Err(e) => load_spec(store@, public_key@) == Err::<Seq<u8>, TeeError>(e),
        },
{
    let handle = match load(store, public_key) {
        Ok(h) => h,
        Err(e) => {
            return Err(e);
        },
    };
    let digest = sha256_digest(message);
    if signature.len() != SIGNATURE_SIZE {
        return Err(TeeError::SignatureInvalid);
    }
    match ecdsa_verify_digest(handle.public_key_bytes(), signature, &digest) {
        Ok(true) => Ok(()),
        _ => Err(TeeError::SignatureInvalid),
    }
}

/// The MAC algorithms the engine supports. The PKCS5-padded AES-CBC MAC is
/// the canonical one; HMAC-SHA1 serves the fixed regression fixture.
#[derive(Clone, Copy, Debug, PartialEq, Eq, Structural)]
pub enum MacAlgorithm {
    AesCbcMacPkcs5,
    HmacSha1,
}

/// Whether `key` has a length the algorithm accepts: AES keys are 16, 24 or
/// 32 bytes; HMAC-SHA1 takes any key the provider's C interface can hold.
pub open spec fn valid_mac_key(alg: MacAlgorithm, key: Seq<u8>) -> bool {
    match alg {
        MacAlgorithm::AesCbcMacPkcs5 => key.len() == 16 || key.len() == 24 || key.len() == 32,
        MacAlgorithm::HmacSha1 => key.len() <= 0x7fff_ffff,
    }
}

/// Whether `data` has a length the algorithm accepts: the AES cipher hands
/// the data length to the provider as a C int; HMAC streams it.
pub open spec fn valid_mac_data(alg: MacAlgorithm, data: Seq<u8>) -> bool {
    match alg {
        MacAlgorithm::AesCbcMacPkcs5 => data.len() <= 0x7fff_ffff,
        MacAlgorithm::HmacSha1 => true,
    }
}

/// The tag length each algorithm emits.
pub open spec fn mac_tag_len(alg: MacAlgorithm) -> int {
    match alg {
        MacAlgorithm::AesCbcMacPkcs5 => 16,
        MacAlgorithm::HmacSha1 => 20,
    }
}

/// The all-zero initialization vector the MAC runs under.
pub open spec fn zero_iv() -> Seq<u8> {
    Seq::new(16, |i: int| 0u8)
}

/// AES-CBC-MAC with PKCS padding: the last cipher block of the CBC
/// ciphertext of the padded data under an all-zero IV.
pub open spec fn cbc_mac_spec(key: Seq<u8>, data: Seq<u8>) -> Seq<u8> {
    let ct = aes_cbc_pkcs_of(key, zero_iv(), data);
    ct.subrange(ct.len() - 16, ct.len() as int)
}

/// The tag `mac_compute` emits for each algorithm.
pub open spec fn mac_spec(alg: MacAlgorithm, key: Seq<u8>, data: Seq<u8>) -> Seq<u8> {
    match alg {
        MacAlgorithm::AesCbcMacPkcs5 => cbc_mac_spec(key, data),
        MacAlgorithm::HmacSha1 => hmac_sha1_of(key, data),
    }
}

/// A 16-byte all-zero IV.
fn zero_iv_bytes() -> (r: Vec<u8>)
    ensures
        r@ == zero_iv(),
{
    let mut v: Vec<u8> = Vec::new();
    let mut i: usize = 0;
    while i < 16
        invariant
            i <= 16,
            v@.len() == i,
            forall|k: int| 0 <= k < i ==> v@[k] == 0u8,
        decreases 16 - i,
    {
        v.push(0u8);
        i += 1;
    }
    proof {
        assert(v@ =~= zero_iv());
    }
    v
}

/// Computes the MAC tag over `data` under the caller-supplied `key` bytes
/// (MAC keys are never persisted). A key or data length the algorithm does
/// not accept is `BadParameters`; a provider failure is `ProviderError`.
pub fn mac_compute(alg: MacAlgorithm, key: &Vec<u8>, data: &Vec<u8>) -> (r: Result<
    Vec<u8>,
    TeeError,
>)
    ensures
        match r {
            Ok(tag) => valid_mac_key(alg, key@) && valid_mac_data(alg, data@) && tag@ == mac_spec(
                alg,
                key@,
                data@,
            ) && tag@.len() == mac_tag_len(alg),
            Err(TeeError::BadParameters) => !valid_mac_key(alg, key@) || !valid_mac_data(
                alg,
                data@,
            ),
            Err(TeeError::ProviderError) => valid_mac_key(alg, key@) && valid_mac_data(alg, data@),
            Err(_) => false,
        },
{
    match alg {
        MacAlgorithm::AesCbcMacPkcs5 => {
            if data.len() > 0x7fff_ffff {
                return Err(TeeError::BadParameters);
            }
            let iv = zero_iv_bytes();
            let ct = if key.len() == 16 {
                aes128_cbc_encrypt(key, &iv, data)
            } else if key.len() == 24 {
                aes192_cbc_encrypt(key, &iv, data)
            } else if key.len() == 32 {
                aes256_cbc_encrypt(key, &iv, data)
            } else {
                return Err(TeeError::BadParameters);
            };
            match ct {
                Ok(c) => Ok(copy_range(&c, c.len() - 16, c.len())),
                Err(_) => Err(TeeError::ProviderError),
            }
        },
        MacAlgorithm::HmacSha1 => {
            if key.len() > 0x7fff_ffff {
                return Err(TeeError::BadParameters);
            }
            match hmac_sha1_raw(key, data) {
                Ok(tag) => Ok(tag),
                Err(_) => Err(TeeError::ProviderError),
            }
        },
    }
}

/// Recomputes the tag over `data` under `key` and compares it against the
/// caller-supplied `tag`, reading every byte of both tags whatever the
/// outcome; a mismatch is `SignatureInvalid`.
pub fn mac_verify(alg: MacAlgorithm, key: &Vec<u8>, data: &Vec<u8>, tag: &Vec<u8>) -> (r: Result<
    (),
    TeeError,
>)
    ensures
        match r {
            Ok(_) => valid_mac_key(alg, key@) && valid_mac_data(alg, data@) && tag@ == mac_spec(
                alg,
                key@,
                data@,
            ),
            Err(TeeError::SignatureInvalid) => valid_mac_key(alg, key@) && valid_mac_data(
                alg,
                data@,
            ) && tag@ != mac_spec(alg, key@, data@),
            Err(TeeError::BadParameters) => !valid_mac_key(alg, key@) || !valid_mac_data(
                alg,
                data@,
            ),
            Err(TeeError::ProviderError) => valid_mac_key(alg, key@) && valid_mac_data(alg, data@),
            Err(_) => false,
        },
{
    let computed = match mac_compute(alg, key, data) {
        Ok(t) => t,
        Err(e) => {
            return Err(e);
        },
    };
    if bytes_eq_fixed_scan(&computed, tag) {
        Ok(())
    } else {
        Err(TeeError::SignatureInvalid)
    }
}

/// Draws a fresh symmetric key of `len` bytes from the provider's
/// randomness and hands it back to the caller; it is never persisted. A
/// length beyond what the provider's C interface holds is `BadParameters`.
pub fn gen_sym_key(len: usize) -> (r: Result<Vec<u8>, TeeError>)
    ensures
        match r {
            Ok(k) => k@.len() == len && len <= 0x7fff_ffff,
            Err(TeeError::BadParameters) => len > 0x7fff_ffff,
            Err(TeeError::ProviderError) => len <= 0x7fff_ffff,
            Err(_) => false,
        },
{
    if len > 0x7fff_ffff {
        return Err(TeeError::BadParameters);
    }
    match random_bytes(len) {
        Ok(k) => Ok(k),
        Err(_) => Err(TeeError::ProviderError),
    }
}

} // verus!
