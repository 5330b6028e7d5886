use vstd::prelude::*;

verus! {

/// Error taxonomy of the trusted-application core.
///
/// Every component-level operation reports failure through one of these
/// variants; the dispatcher turns a handler failure into the call-level
/// result returned to the host.
#[derive(Clone, Copy, Debug, PartialEq, Eq, Structural)]
pub enum TeeError {
    /// Unknown command, or a malformed or undersized parameter buffer.
    BadParameters,
    /// Store miss on read or delete.
    NotFound,
    /// A store read returned more bytes than the object declared.
    ExcessData,
    /// A store read returned fewer bytes than the object declared.
    Truncated,
    /// Sign or verify cryptographic failure, including legitimate
    /// verification rejection.
    SignatureInvalid,
    /// Opaque failure from the underlying cryptographic provider.
    ProviderError,
}

} // verus!
