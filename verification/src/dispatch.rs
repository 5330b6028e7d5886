use vstd::prelude::*;

use crate::crypto::{ecdsa_verify_of, sha256_of};
use crate::engine::{
    mac_compute, mac_spec, mac_verify, sign, valid_mac_data, valid_mac_key, verify, MacAlgorithm,
    MAC_SIZE, PUBLIC_KEY_SIZE, SIGNATURE_SIZE,
};
use crate::error::TeeError;
use crate::keys::{del_key_pair, gen_key_pair, load_spec, well_formed_public_key};
use crate::store::{create_spec, delete_post, delete_result, KeyStore};

verus! {

/// The operations a host may invoke, decoded once per invocation from the
/// integer command code shared between host and trusted application.
#[derive(Clone, Copy, Debug, PartialEq, Eq, Structural)]
pub enum Command {
    GenKeyPair,
    DelkeyPair,
    Sign,
    Verify,
    Mac,
    MacVerify,
}

/// The command each integer code selects; unknown codes select none.
pub open spec fn command_of(cmd_id: u32) -> Option<Command> {
    if cmd_id == 0 {
        Some(Command::GenKeyPair)
    } else if cmd_id == 1 {
        Some(Command::DelkeyPair)
    } else if cmd_id == 2 {
        Some(Command::Sign)
    } else if cmd_id == 3 {
        Some(Command::Verify)
    } else if cmd_id == 4 {
        Some(Command::Mac)
    } else if cmd_id == 5 {
        Some(Command::MacVerify)
    } else {
        None
    }
}

/// Decodes an integer command code.
pub fn command_from_u32(cmd_id: u32) -> (r: Option<Command>)
    ensures
        r == command_of(cmd_id),
{
    if cmd_id == 0 {
        Some(Command::GenKeyPair)
    } else if cmd_id == 1 {
        Some(Command::DelkeyPair)
    } else if cmd_id == 2 {
        Some(Command::Sign)
    } else if cmd_id == 3 {
        Some(Command::Verify)
    } else if cmd_id == 4 {
        Some(Command::Mac)
    } else if cmd_id == 5 {
        Some(Command::MacVerify)
    } else {
        None
    }
}

/// One host-supplied parameter slot: an input buffer the trusted side may
/// read, an output buffer of a declared capacity the trusted side may fill,
/// or nothing. The buffer is borrowed for the one call only.
pub enum ParamSlot {
    Input(Vec<u8>),
    Output(usize),
    Absent,
}

/// The up to four parameter slots of one invocation.
pub struct Params {
    pub p0: ParamSlot,
    pub p1: ParamSlot,
    pub p2: ParamSlot,
    pub p3: ParamSlot,
}

/// A call rejected before touching anything: `BadParameters`, store
/// unchanged.
pub open spec fn rejected(
    m0: Map<Seq<u8>, Seq<u8>>,
    m1: Map<Seq<u8>, Seq<u8>>,
    r: Result<Option<Vec<u8>>, TeeError>,
) -> bool {
    r == Err::<Option<Vec<u8>>, TeeError>(TeeError::BadParameters) && m1 == m0
}

/// Slot layout of a generate call: one output buffer sized for the public
/// key.
pub open spec fn gen_params_ok(params: Params) -> bool {
    params.p0 is Output && params.p0->Output_0 == PUBLIC_KEY_SIZE
}

/// What a generate call did: a fresh well-formed public key filled the
/// output slot and its scalar was persisted under it, or the provider
/// failed and the store is unchanged.
pub open spec fn gen_post(
    m0: Map<Seq<u8>, Seq<u8>>,
    m1: Map<Seq<u8>, Seq<u8>>,
    params: Params,
    r: Result<Option<Vec<u8>>, TeeError>,
) -> bool {
    if gen_params_ok(params) {
        match r {
            Ok(out) => out matches Some(pk) && well_formed_public_key(pk@) && (exists|
                sk: Seq<u8>,
            |
                sk.len() == 32 && m1 == #[trigger] create_spec(m0, pk@, sk)),
            Err(e) => e == TeeError::ProviderError && m1 == m0,
        }
    } else {
        rejected(m0, m1, r)
    }
}

/// Slot layout of a delete call: one input buffer holding the public key.
pub open spec fn del_params_ok(params: Params) -> bool {
    params.p0 is Input && params.p0->Input_0@.len() == PUBLIC_KEY_SIZE
}

/// What a delete call did: the persisted scalar is gone, or `NotFound` and
/// an unchanged store.
pub open spec fn del_post(
    m0: Map<Seq<u8>, Seq<u8>>,
    m1: Map<Seq<u8>, Seq<u8>>,
    params: Params,
    r: Result<Option<Vec<u8>>, TeeError>,
) -> bool {
    if del_params_ok(params) {
        let pk = params.p0->Input_0@;
        match delete_result(m0, pk) {
            Ok(_) => r == Ok::<Option<Vec<u8>>, TeeError>(None) && m1 == delete_post(m0, pk),
            Err(e) => r == Err::<Option<Vec<u8>>, TeeError>(e) && m1 == m0,
        }
    } else {
        rejected(m0, m1, r)
    }
}

/// Slot layout of a sign call: public key in, message in, signature out.
pub open spec fn sign_params_ok(params: Params) -> bool {
    &&& params.p0 is Input && params.p0->Input_0@.len() == PUBLIC_KEY_SIZE
    &&& params.p1 is Input
    &&& params.p2 is Output && params.p2->Output_0 == SIGNATURE_SIZE
}

/// What a sign call returned; the store is never changed by it.
pub open spec fn sign_post(
    m0: Map<Seq<u8>, Seq<u8>>,
    params: Params,
    r: Result<Option<Vec<u8>>, TeeError>,
) -> bool {
    let pk = params.p0->Input_0@;
    match r {
        Ok(out) => out matches Some(sig) && sig@.len() == SIGNATURE_SIZE && load_spec(m0, pk)
            is Ok,
        Err(TeeError::SignatureInvalid) => load_spec(m0, pk) is Ok,
        Err(e) => load_spec(m0, pk) == Err::<Seq<u8>, TeeError>(e),
    }
}

/// Slot layout of a verify call: public key, signature and message in.
pub open spec fn verify_params_ok(params: Params) -> bool {
    &&& params.p0 is Input && params.p0->Input_0@.len() == PUBLIC_KEY_SIZE
    &&& params.p1 is Input
    &&& params.p2 is Input
}

/// What a verify call returned: `Ok` exactly when the key loads, the
/// signature has the right length and the provider accepts it over the
/// message digest.
pub open spec fn verify_post(
    m0: Map<Seq<u8>, Seq<u8>>,
    params: Params,
    r: Result<Option<Vec<u8>>, TeeError>,
) -> bool {
    let pk = params.p0->Input_0@;
    let sig = params.p1->Input_0@;
    let msg = params.p2->Input_0@;
    match r {
        Ok(out) => out is None && load_spec(m0, pk) is Ok && sig.len() == SIGNATURE_SIZE
            && ecdsa_verify_of(pk, sig, sha256_of(msg)),
        Err(TeeError::SignatureInvalid) => load_spec(m0, pk) is Ok && !(sig.len()
            == SIGNATURE_SIZE && ecdsa_verify_of(pk, sig, sha256_of(msg))),
        Err(e) => load_spec(m0, pk) == Err::<Seq<u8>, TeeError>(e),
    }
}

/// Slot layout of a MAC call: data in, key in, tag out.
pub open spec fn mac_params_ok(params: Params) -> bool {
    &&& params.p0 is Input
    &&& params.p1 is Input
    &&& params.p2 is Output && params.p2->Output_0 == MAC_SIZE
}

/// What a MAC call returned: the PKCS5-padded AES-CBC tag over the data.
pub open spec fn mac_post(params: Params, r: Result<Option<Vec<u8>>, TeeError>) -> bool {
    let data = params.p0->Input_0@;
    let key = params.p1->Input_0@;
    match r {
        Ok(out) => out matches Some(tag) && valid_mac_key(MacAlgorithm::AesCbcMacPkcs5, key)
            && valid_mac_data(MacAlgorithm::AesCbcMacPkcs5, data) && tag@ == mac_spec(
            MacAlgorithm::AesCbcMacPkcs5,
            key,
            data,
        ) && tag@.len() == MAC_SIZE,
        Err(TeeError::BadParameters) => !valid_mac_key(MacAlgorithm::AesCbcMacPkcs5, key)
            || !valid_mac_data(MacAlgorithm::AesCbcMacPkcs5, data),
        Err(TeeError::ProviderError) => valid_mac_key(MacAlgorithm::AesCbcMacPkcs5, key)
            && valid_mac_data(MacAlgorithm::AesCbcMacPkcs5, data),
        Err(_) => false,
    }
}

/// Slot layout of a MAC-verify call: data, key and expected tag in.
pub open spec fn mac_verify_params_ok(params: Params) -> bool {
    &&& params.p0 is Input
    &&& params.p1 is Input
    &&& params.p2 is Input
}

/// What a MAC-verify call returned: `Ok` exactly when the supplied tag is
/// the one the key and data yield.
pub open spec fn mac_verify_post(params: Params, r: Result<Option<Vec<u8>>, TeeError>) -> bool {
    let data = params.p0->Input_0@;
    let key = params.p1->Input_0@;
    let tag = params.p2->Input_0@;
    match r {
        Ok(out) => out is None && valid_mac_key(MacAlgorithm::AesCbcMacPkcs5, key)
            && valid_mac_data(MacAlgorithm::AesCbcMacPkcs5, data) && tag == mac_spec(
            MacAlgorithm::AesCbcMacPkcs5,
            key,
            data,
        ),
        Err(TeeError::SignatureInvalid) => valid_mac_key(MacAlgorithm::AesCbcMacPkcs5, key)
            && valid_mac_data(MacAlgorithm::AesCbcMacPkcs5, data) && tag != mac_spec(
            MacAlgorithm::AesCbcMacPkcs5,
            key,
            data,
        ),
        Err(TeeError::BadParameters) => !valid_mac_key(MacAlgorithm::AesCbcMacPkcs5, key)
            || !valid_mac_data(MacAlgorithm::AesCbcMacPkcs5, data),
        Err(TeeError::ProviderError) => valid_mac_key(MacAlgorithm::AesCbcMacPkcs5, key)
            && valid_mac_data(MacAlgorithm::AesCbcMacPkcs5, data),
        Err(_) => false,
    }
}

/// Everything one invocation promises, by decoded command. An unknown
/// command code is a terminal `BadParameters` for that call alone and the
/// store is left unchanged, no key created or deleted.
pub open spec fn invoke_post(
    m0: Map<Seq<u8>, Seq<u8>>,
    m1: Map<Seq<u8>, Seq<u8>>,
    cmd_id: u32,
    params: Params,
    r: Result<Option<Vec<u8>>, TeeError>,
) -> bool {
    match command_of(cmd_id) {
        None => rejected(m0, m1, r),
        Some(Command::GenKeyPair) => gen_post(m0, m1, params, r),
        Some(Command::DelkeyPair) => del_post(m0, m1, params, r),
        Some(Command::Sign) => m1 == m0 && if sign_params_ok(params) {
            sign_post(m0, params, r)
        } else {
            r == Err::<Option<Vec<u8>>, TeeError>(TeeError::BadParameters)
        },
        Some(Command::Verify) => m1 == m0 && if verify_params_ok(params) {
            verify_post(m0, params, r)
        } else {
            r == Err::<Option<Vec<u8>>, TeeError>(TeeError::BadParameters)
        },
        Some(Command::Mac) => m1 == m0 && if mac_params_ok(params) {
            mac_post(params, r)
        } else {
            r == Err::<Option<Vec<u8>>, TeeError>(TeeError::BadParameters)
        },
        Some(Command::MacVerify) => m1 == m0 && if mac_verify_params_ok(params) {
            mac_verify_post(params, r)
        } else {
            r == Err::<Option<Vec<u8>>, TeeError>(TeeError::BadParameters)
        },
    }
}

/// Decodes the command code, validates the parameter slots against the
/// command's expected layout, routes to exactly one handler, and returns
/// the bytes for the single output slot, if the command has one. Every call
/// is validated independently; no state is kept across calls beyond the
/// store itself.
pub fn invoke_command(store: &mut KeyStore, cmd_id: u32, params: &Params) -> (r: Result<
    Option<Vec<u8>>,
    TeeError,
>)
    requires
        old(store).wf(),
    ensures
        final(store).wf(),
        invoke_post(old(store)@, final(store)@, cmd_id, *params, r),
{
    let cmd = match command_from_u32(cmd_id) {
        Some(c) => c,
        None => {
            return Err(TeeError::BadParameters);
        },
    };
    match cmd {
        Command::GenKeyPair => {
            let ok = match &params.p0 {
                ParamSlot::Output(c) => *c == PUBLIC_KEY_SIZE,
                _ => false,
            };
            if !ok {
                return Err(TeeError::BadParameters);
            }
            match gen_key_pair(store) {
                Ok(pk) => Ok(Some(pk)),
                Err(e) => Err(e),
            }
        },
        Command::DelkeyPair => {
            let pk = match &params.p0 {
                ParamSlot::Input(v) => v,
                _ => {
                    return Err(TeeError::BadParameters);
                },
            };
            if pk.len() != PUBLIC_KEY_SIZE {
                return Err(TeeError::BadParameters);
            }
            match del_key_pair(store, pk) {
                Ok(_) => Ok(None),
                Err(e) => Err(e),
            }
        },
        Command::Sign => {
            let pk = match &params.p0 {
                ParamSlot::Input(v) => v,
                _ => {
                    return Err(TeeError::BadParameters);
                },
            };
            let msg = match &params.p1 {
                ParamSlot::Input(v) => v,
                _ => {
                    return Err(TeeError::BadParameters);
                },
            };
            let cap = match &params.p2 {
                ParamSlot::Output(c) => *c,
                _ => {
                    return Err(TeeError::BadParameters);
                },
            };
            if pk.len() != PUBLIC_KEY_SIZE || cap != SIGNATURE_SIZE {
                return Err(TeeError::BadParameters);
            }
            match sign(store, pk, msg) {
                Ok(sig) => Ok(Some(sig)),
                Err(e) => Err(e),
            }
        },
        Command::Verify => {
            let pk = match &params.p0 {
                ParamSlot::Input(v) => v,
                _ => {
                    return Err(TeeError::BadParameters);
                },
            };
            let sig = match &params.p1 {
                ParamSlot::Input(v) => v,
                _ => {
                    return Err(TeeError::BadParameters);
                },
            };
            let msg = match &params.p2 {
                ParamSlot::Input(v) => v,
                _ => {
                    return Err(TeeError::BadParameters);
                },
            };
            if pk.len() != PUBLIC_KEY_SIZE {
                return Err(TeeError::BadParameters);
            }
            match verify(store, pk, sig, msg) {
                Ok(_) => Ok(None),
                Err(e) => Err(e),
            }
        },
        Command::Mac => {
            let data = match &params.p0 {
                ParamSlot::Input(v) => v,
                _ => {
                    return Err(TeeError::BadParameters);
                },
            };
            let key = match &params.p1 {
                ParamSlot::Input(v) => v,
                _ => {
                    return Err(TeeError::BadParameters);
                },
            };
            let ok = match &params.p2 {
                ParamSlot::Output(c) => *c == MAC_SIZE,
                _ => false,
            };
            if !ok {
                return Err(TeeError::BadParameters);
            }
            match mac_compute(MacAlgorithm::AesCbcMacPkcs5, key, data) {
                Ok(tag) => Ok(Some(tag)),
                Err(e) => Err(e),
            }
        },
        Command::MacVerify => {
            let data = match &params.p0 {
                ParamSlot::Input(v) => v,
                _ => {
                    return Err(TeeError::BadParameters);
                },
            };
            let key = match &params.p1 {
                ParamSlot::Input(v) => v,
                _ => {
                    return Err(TeeError::BadParameters);
                },
            };
            let tag = match &params.p2 {
                ParamSlot::Input(v) => v,
                _ => {
                    return Err(TeeError::BadParameters);
                },
            };
            match mac_verify(MacAlgorithm::AesCbcMacPkcs5, key, data, tag) {
                Ok(_) => Ok(None),
                Err(e) => Err(e),
            }
        },
    }
}

} // verus!
