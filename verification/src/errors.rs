//! The failure kinds of the cryptographic engine. Verification mismatches
//! (wrong signature, wrong key) are reported as a boolean `false` result,
//! not as an error: an error means the operation could not be attempted or
//! could not complete, and is terminal for that operation.

use vstd::prelude::*;

verus! {

/// Why an operation of the engine failed.
#[derive(Debug, Clone, Copy, PartialEq, Eq, Structural)]
pub enum CryptError {
    /// The key bytes do not satisfy the scheme's key-material requirement.
    InvalidKeyLength,
    /// The algorithm tag does not support the requested operation.
    UnsupportedOperation,
    /// The supplied signature bytes are shorter than the scheme's fixed
    /// signature size.
    SignatureLengthMismatch,
    /// The authentication tag of a ciphertext did not check out on decrypt:
    /// tampering, a wrong key, or corrupted data.
    AuthenticationFailure,
    /// A byte source outside the engine failed; reading streams and key files
    /// is the caller's job, and the operating system's random source counts
    /// as such a source during key generation.
    IOFailure,
}

impl CryptError {
    /// A short description, for callers that surface the failure to a user.
    pub fn message(&self) -> (r: &'static str)
        ensures
            r@ == self.spec_message(),
    {
        proof {
            reveal_strlit("invalid key length");
            reveal_strlit("unsupported operation");
            reveal_strlit("signature length mismatch");
            reveal_strlit("authentication failure");
            reveal_strlit("io failure");
        }
        match self {
            CryptError::InvalidKeyLength => "invalid key length",
            CryptError::UnsupportedOperation => "unsupported operation",
            CryptError::SignatureLengthMismatch => "signature length mismatch",
            CryptError::AuthenticationFailure => "authentication failure",
            CryptError::IOFailure => "io failure",
        }
    }

    /// What `message` returns for each kind.
    pub open spec fn spec_message(&self) -> Seq<char> {
        match self {
            CryptError::InvalidKeyLength => "invalid key length"@,
            CryptError::UnsupportedOperation => "unsupported operation"@,
            CryptError::SignatureLengthMismatch => "signature length mismatch"@,
            CryptError::AuthenticationFailure => "authentication failure"@,
            CryptError::IOFailure => "io failure"@,
        }
    }
}

} // verus!
