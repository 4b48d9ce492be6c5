//! The closed set of supported schemes. Every entry point of the engine
//! selects its behaviour by one of these tags.

use vstd::prelude::*;

verus! {

/// The algorithm tag: one keyed-hash scheme, one asymmetric-signature scheme,
/// and one authenticated-cipher scheme.
#[derive(Debug, Clone, Copy, PartialEq, Eq, Structural)]
pub enum TextSignFormat {
    /// Keyed integrity hashing: one 32-byte secret both signs and verifies.
    Blake3,
    /// Asymmetric signatures: a 32-byte seed signs, the derived verifying
    /// key verifies.
    Ed25519,
    /// Authenticated encryption: a 32-byte key and a 12-byte nonce,
    /// supplied together as one 44-byte blob.
    ChaCha20,
}

} // verus!
