//! The engine-wide laws, proved from the contracts the operations state.
//! Each law is a public proof function: its parameters are the law's inputs,
//! its preconditions say no more than what the operations' own contracts
//! give about those inputs, and its conclusion is stated over the same spec
//! functions the operations' contracts use.

use vstd::prelude::*;

use crate::algo::TextSignFormat;
use crate::errors::CryptError;
use crate::primitives::asym_accepts;
use crate::primitives::asym_key_valid;
use crate::primitives::cipher_opened;
use crate::primitives::cipher_sealed;
use crate::primitives::keyed_digest;
use crate::text::spec_text_decrypt;
use crate::text::spec_text_sign;
use crate::text::spec_text_verify;

verus! {

/// For every byte buffer and every 32-byte key, the digest that keyed-hash
/// signing returns verifies as `true` over the same buffer and key. The two
/// preconditions on `sig` are exactly what the signing contract gives: the
/// signature is the keyed digest and is 32 bytes long.
pub proof fn lemma_keyed_hash_sign_verifies(key: Seq<u8>, data: Seq<u8>, sig: Seq<u8>)
    requires
        key.len() == 32,
        spec_text_sign(TextSignFormat::Blake3, key, data) == Ok::<Seq<u8>, CryptError>(sig),
        sig.len() == 32,
    ensures
        spec_text_verify(TextSignFormat::Blake3, key, data, sig) == Ok::<bool, CryptError>(true),
{
    assert(sig == keyed_digest(key, data));
    assert(sig.take(32) =~= sig);
}

/// For every byte buffer, a signature that the verifying key accepts — which
/// the asymmetric signing contract guarantees of its output under the
/// verifying key derived from the signing seed — verifies as `true` under
/// the 32-byte encoding of that key.
pub proof fn lemma_asym_sign_verifies(vk: Seq<u8>, data: Seq<u8>, sig: Seq<u8>)
    requires
        vk.len() == 32,
        asym_key_valid(vk),
        sig.len() == 64,
        asym_accepts(vk, data, sig),
    ensures
        spec_text_verify(TextSignFormat::Ed25519, vk, data, sig) == Ok::<bool, CryptError>(true),
{
    assert(sig.take(64) =~= sig);
}

/// Asymmetric verification reads only the first 64 signature bytes: a
/// signature byte sequence at least that long gives the same outcome as its
/// own first 64 bytes, whatever follows them.
pub proof fn lemma_asym_verify_reads_first_64_bytes(key: Seq<u8>, data: Seq<u8>, sig: Seq<u8>)
    requires
        sig.len() >= 64,
    ensures
        spec_text_verify(TextSignFormat::Ed25519, key, data, sig) == spec_text_verify(
            TextSignFormat::Ed25519,
            key,
            data,
            sig.take(64),
        ),
{
    assert(sig.take(64).take(64) =~= sig.take(64));
}

/// Asymmetric verification of a signature byte sequence shorter than 64
/// bytes fails with `SignatureLengthMismatch` whenever the key material
/// itself is acceptable.
pub proof fn lemma_asym_verify_rejects_short_signature(key: Seq<u8>, data: Seq<u8>, sig: Seq<u8>)
    requires
        key.len() == 32,
        asym_key_valid(key),
        sig.len() < 64,
    ensures
        spec_text_verify(TextSignFormat::Ed25519, key, data, sig) == Err::<bool, CryptError>(
            CryptError::SignatureLengthMismatch,
        ),
{
}

/// For every plaintext and every key blob of at least 44 bytes, decrypting
/// what encryption produced — whose tag, the encryption contract guarantees,
/// opens back to the plaintext under the same key and nonce — returns
/// exactly the original plaintext.
pub proof fn lemma_cipher_round_trip(key: Seq<u8>, plain: Seq<u8>, cipher: Seq<u8>)
    requires
        key.len() >= 44,
        cipher == cipher_sealed(key.take(32), key.subrange(32, 44), plain),
        cipher_opened(key.take(32), key.subrange(32, 44), cipher) == Some(plain),
    ensures
        spec_text_decrypt(TextSignFormat::ChaCha20, key, cipher) == Ok::<Seq<u8>, CryptError>(
            plain,
        ),
{
}

} // verus!
