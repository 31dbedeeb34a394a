use vstd::prelude::*;

verus! {

/// The ways in which an operation of this library can fail.
#[derive(Debug, Clone, Copy, PartialEq, Eq, Structural)]
pub enum CryptoError {
    /// A key buffer does not hold exactly 32 bytes.
    InvalidKeyLength,
    /// The authentication tag of an envelope does not verify.
    AuthenticationFailure,
    /// An envelope is too short to hold a nonce and a tag.
    MalformedEnvelope,
}

} // verus!
