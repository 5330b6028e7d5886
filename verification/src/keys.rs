use vstd::prelude::*;

use crate::bytes::copy_bytes;
use crate::crypto::ec_generate_key_pair;
use crate::error::TeeError;
use crate::store::{create_spec, delete_post, delete_result, strip_tag, KeyStore};

verus! {

/// Public key layout: one 0x04 point-format tag byte and two 32-byte
/// coordinates.
pub open spec fn well_formed_public_key(pk: Seq<u8>) -> bool {
    pk.len() == 65 && pk[0] == 4
}

/// A key pair reconstructed from the store, usable for signing and
/// verifying within one call.
pub struct KeyHandle {
    /// `0x04 || X || Y`.
    public_key: Vec<u8>,
    /// The private scalar; held only inside the trust boundary and never
    /// written to an output buffer.
    private_scalar: Vec<u8>,
}

impl KeyHandle {
    /// The public key bytes, as seen by contracts.
    pub closed spec fn pk(&self) -> Seq<u8> {
        self.public_key@
    }

    /// The private scalar, visible to contracts only.
    pub closed spec fn scalar(&self) -> Seq<u8> {
        self.private_scalar@
    }

    /// A handle holds a well-formed public key and a 32-byte scalar.
    pub open spec fn wf(&self) -> bool {
        well_formed_public_key(self.pk()) && self.scalar().len() == 32
    }

    /// The public key bytes.
    pub fn public_key_bytes(&self) -> (r: &Vec<u8>)
        ensures
            r@ == self.pk(),
    {
        &self.public_key
    }

    /// The scalar bytes, for the signing provider.
    pub(crate) fn scalar_bytes(&self) -> (r: &Vec<u8>)
        ensures
            r@ == self.scalar(),
    {
        &self.private_scalar
    }
}

/// What `load` returns for a store `m` and a caller-supplied public key:
/// the persisted private scalar, `NotFound` when it was never created or
/// already deleted, or a provider error when the key material at hand is
/// malformed (wrong public-key or scalar length, or a missing tag byte).
pub open spec fn load_spec(m: Map<Seq<u8>, Seq<u8>>, pk: Seq<u8>) -> Result<Seq<u8>, TeeError> {
    if !m.contains_key(strip_tag(pk)) {
        Err(TeeError::NotFound)
    } else if !well_formed_public_key(pk) || m[strip_tag(pk)].len() != 32 {
        Err(TeeError::ProviderError)
    } else {
        Ok(m[strip_tag(pk)])
    }
}

/// Generates an EC key pair on the P-256 curve, persists the private scalar
/// under the identifier derived from the public key, and returns the public
/// key `0x04 || X || Y`. No partial key is persisted: on provider failure
/// the store is unchanged.
pub fn gen_key_pair(store: &mut KeyStore) -> (r: Result<Vec<u8>, TeeError>)
    requires
        old(store).wf(),
    ensures
        final(store).wf(),
        match r {
            Ok(pk) => well_formed_public_key(pk@) && (exists|sk: Seq<u8>|
                sk.len() == 32 && final(store)@ == #[trigger] create_spec(old(store)@, pk@, sk)),
            Err(e) => e == TeeError::ProviderError && final(store)@ == old(store)@,
        },
{
    let (pk, sk) = match ec_generate_key_pair() {
        Ok(p) => p,
        Err(_) => {
            return Err(TeeError::ProviderError);
        },
    };
    match store.create_raw_object(&pk, &sk) {
        Ok(_) => {
            proof {
                assert(final(store)@ == create_spec(old(store)@, pk@, sk@));
            }
            Ok(pk)
        },
        Err(e) => Err(e),
    }
}

/// Deletes the persisted private scalar belonging to `public_key`;
/// `NotFound` when the key was never created or is already deleted.
pub fn del_key_pair(store: &mut KeyStore, public_key: &Vec<u8>) -> (r: Result<(), TeeError>)
    requires
        old(store).wf(),
        public_key@.len() >= 1,
    ensures
        final(store).wf(),
        r == delete_result(old(store)@, public_key@),
        r is Ok ==> final(store)@ == delete_post(old(store)@, public_key@),
        r is Err ==> final(store)@ == old(store)@,
{
    store.delete_object(public_key)
}

/// Reads the persisted private scalar for `public_key` and reconstructs a
/// usable key handle from scalar and public coordinates.
pub fn load(store: &KeyStore, public_key: &Vec<u8>) -> (r: Result<KeyHandle, TeeError>)
    requires
        store.wf(),
        public_key@.len() >= 1,
    ensures
        match r {
            Ok(h) => load_spec(store@, public_key@) == Ok::<Seq<u8>, TeeError>(h.scalar())
                && h.wf() && h.pk() == public_key@,
            Err(e) => load_spec(store@, public_key@) == Err::<Seq<u8>, TeeError>(e),
        },
{
    let data = match store.read_raw_object(public_key) {
        Ok(d) => d,
        Err(e) => {
            return Err(e);
        },
    };
    if public_key.len() != 65 {
        return Err(TeeError::ProviderError);
    }
    if public_key[0] != 4 {
        return Err(TeeError::ProviderError);
    }
    if data.len() != 32 {
        return Err(TeeError::ProviderError);
    }
    Ok(KeyHandle { public_key: copy_bytes(public_key), private_scalar: data })
}

/// A key pair just generated can be loaded again: the scalar persisted by
/// `gen_key_pair` is found under its public key, and is exactly the scalar
/// that was stored. The contracts of `sign` and `verify` accept every store
/// in which this holds, so such a key is usable for both.
pub proof fn lemma_load_after_generate(m: Map<Seq<u8>, Seq<u8>>, pk: Seq<u8>, sk: Seq<u8>)
    requires
        well_formed_public_key(pk),
        sk.len() == 32,
    ensures
        load_spec(create_spec(m, pk, sk), pk) == Ok::<Seq<u8>, TeeError>(sk),
{
}

/// After a key is deleted, loading it fails with `NotFound`, and a second
/// delete of the same key fails with `NotFound` as well.
pub proof fn lemma_delete_then_load(m: Map<Seq<u8>, Seq<u8>>, pk: Seq<u8>)
    ensures
        load_spec(delete_post(m, pk), pk) == Err::<Seq<u8>, TeeError>(TeeError::NotFound),
        delete_result(delete_post(m, pk), pk) == Err::<(), TeeError>(TeeError::NotFound),
{
}

} // verus!
