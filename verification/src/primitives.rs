//! The boundary to the cryptographic crates. Each function here wraps one
//! primitive of an outside crate; the rest of the engine is verified against
//! the contracts on these wrappers. Results that no short formula can state
//! (a digest, a signature, a ciphertext) are given uninterpreted names, and
//! every contract of the engine speaks of those names exactly.

use vstd::prelude::*;

use chacha20poly1305::aead::Aead;
use chacha20poly1305::aead::KeyInit;
use ed25519_dalek::Signer;
use ed25519_dalek::Verifier;
use rand::rngs::OsRng;
use rand::RngCore;

verus! {

/// The 32-byte keyed digest of `data` under the 32-byte `key`: a function of
/// the key and the input alone.
pub uninterp spec fn keyed_digest(key: Seq<u8>, data: Seq<u8>) -> Seq<u8>;

/// The 64-byte signature of `data` under the signing key derived from the
/// 32-byte `seed`: signing is deterministic, so this is a function of the
/// seed and the input alone.
pub uninterp spec fn asym_signature(seed: Seq<u8>, data: Seq<u8>) -> Seq<u8>;

/// The 32-byte verifying key derived from the 32-byte signing `seed`.
pub uninterp spec fn asym_verifying_key(seed: Seq<u8>) -> Seq<u8>;

/// Whether 32 bytes decode to a well-formed verifying key.
pub uninterp spec fn asym_key_valid(vk: Seq<u8>) -> bool;

/// Whether the verifying key `vk` accepts `sig` as a signature over `data`.
pub uninterp spec fn asym_accepts(vk: Seq<u8>, data: Seq<u8>, sig: Seq<u8>) -> bool;

/// The ciphertext (tag appended) of `plain` under the 32-byte cipher `key`
/// and 12-byte `nonce`.
pub uninterp spec fn cipher_sealed(key: Seq<u8>, nonce: Seq<u8>, plain: Seq<u8>) -> Seq<u8>;

/// The plaintext recovered from `cipher` under `key` and `nonce`, or `None`
/// when the authentication tag does not check out.
pub uninterp spec fn cipher_opened(key: Seq<u8>, nonce: Seq<u8>, cipher: Seq<u8>) -> Option<
    Seq<u8>,
>;

/// The longest buffer the authenticated cipher is asked to process. The
/// cipher's keystream is capped near 2^38 bytes; staying well under that
/// cap lets encryption promise success.
pub const MAX_MESSAGE_LEN: usize = 0xffff_f000;

/// Relies on blake3::keyed_hash: a 32-byte keyed digest, computed from the
/// key and the input alone.
#[verifier::external_body]
pub(crate) fn blake3_keyed_hash(key: &[u8], data: &[u8]) -> (r: Vec<u8>)
    requires
        key@.len() == 32,
    ensures
        r@ == keyed_digest(key@, data@),
        r@.len() == 32,
{
    let key: &[u8; 32] = key.try_into().unwrap();
    blake3::keyed_hash(key, data).as_bytes().to_vec()
}

/// Relies on ed25519_dalek::SigningKey::from_bytes and Signer::sign: any 32
/// bytes make a signing key, signing is deterministic (RFC 8032), the
/// signature is 64 bytes, and the verifying key derived from the same seed
/// accepts it over the same message.
#[verifier::external_body]
pub(crate) fn ed25519_sign_bytes(seed: &[u8], data: &[u8]) -> (r: Vec<u8>)
    requires
        seed@.len() == 32,
    ensures
        r@ == asym_signature(seed@, data@),
        r@.len() == 64,
        asym_accepts(asym_verifying_key(seed@), data@, r@),
{
    let seed: &[u8; 32] = seed.try_into().unwrap();
    let key = ed25519_dalek::SigningKey::from_bytes(seed);
    key.sign(data).to_bytes().to_vec()
}

/// Relies on ed25519_dalek::SigningKey::verifying_key and
/// VerifyingKey::to_bytes: the verifying key is a function of the seed alone,
/// its 32-byte encoding decodes back to a well-formed key.
#[verifier::external_body]
pub(crate) fn ed25519_derive_verifying_key(seed: &[u8]) -> (r: Vec<u8>)
    requires
        seed@.len() == 32,
    ensures
        r@ == asym_verifying_key(seed@),
        r@.len() == 32,
        asym_key_valid(r@),
{
    let seed: &[u8; 32] = seed.try_into().unwrap();
    let key = ed25519_dalek::SigningKey::from_bytes(seed);
    key.verifying_key().to_bytes().to_vec()
}

/// Relies on ed25519_dalek::VerifyingKey::from_bytes: it decodes exactly the
/// well-formed 32-byte key encodings and rejects the rest.
#[verifier::external_body]
pub(crate) fn ed25519_key_decodes(vk: &[u8]) -> (r: bool)
    requires
        vk@.len() == 32,
    ensures
        r == asym_key_valid(vk@),
{
    let vk: &[u8; 32] = vk.try_into().unwrap();
    ed25519_dalek::VerifyingKey::from_bytes(vk).is_ok()
}

/// Relies on ed25519_dalek::Verifier::verify and ed25519::Signature::from_bytes:
/// acceptance is a function of the verifying key, the message, and the 64
/// signature bytes alone.
#[verifier::external_body]
pub(crate) fn ed25519_verify_bytes(vk: &[u8], data: &[u8], sig: &[u8]) -> (r: bool)
    requires
        vk@.len() == 32,
        asym_key_valid(vk@),
        sig@.len() == 64,
    ensures
        r == asym_accepts(vk@, data@, sig@),
{
    let vk: &[u8; 32] = vk.try_into().unwrap();
    let key = ed25519_dalek::VerifyingKey::from_bytes(vk).unwrap();
    let sig: &[u8; 64] = sig.try_into().unwrap();
    let signature = ed25519_dalek::Signature::from_bytes(sig);
    key.verify(data, &signature).is_ok()
}

/// Relies on chacha20poly1305::ChaCha20Poly1305 through aead::Aead::encrypt:
/// for buffers under the keystream cap it returns the ciphertext with the
/// 16-byte tag appended, a function of key, nonce and plaintext alone, and
/// decryption under the same key and nonce recovers the plaintext.
#[verifier::external_body]
pub(crate) fn chacha20_encrypt_bytes(key: &[u8], nonce: &[u8], plain: &[u8]) -> (r: Vec<u8>)
    requires
        key@.len() == 32,
        nonce@.len() == 12,
        plain@.len() <= MAX_MESSAGE_LEN,
    ensures
        r@ == cipher_sealed(key@, nonce@, plain@),
        r@.len() == plain@.len() + 16,
        cipher_opened(key@, nonce@, r@) == Some(plain@),
{
    let cipher = chacha20poly1305::ChaCha20Poly1305::new_from_slice(key).unwrap();
    let nonce = chacha20poly1305::Nonce::from_slice(nonce);
    cipher.encrypt(nonce, plain).unwrap()
}

/// Relies on chacha20poly1305::ChaCha20Poly1305 through aead::Aead::decrypt:
/// it is deterministic, and returns the plaintext exactly when the
/// authentication tag checks out under this key and nonce.
#[verifier::external_body]
pub(crate) fn chacha20_decrypt_bytes(key: &[u8], nonce: &[u8], cipher: &[u8]) -> (r: Option<
    Vec<u8>,
>)
    requires
        key@.len() == 32,
        nonce@.len() == 12,
        cipher@.len() <= MAX_MESSAGE_LEN + 16,
    ensures
        r is Some <==> cipher_opened(key@, nonce@, cipher@) is Some,
        r matches Some(p) ==> Some(p@) == cipher_opened(key@, nonce@, cipher@),
{
    let chacha = chacha20poly1305::ChaCha20Poly1305::new_from_slice(key).unwrap();
    let nonce = chacha20poly1305::Nonce::from_slice(nonce);
    chacha.decrypt(nonce, cipher).ok()
}

/// Relies on rand's OsRng (rand_core::OsRng::try_fill_bytes): on success the
/// buffer has the asked-for length; nothing is promised of its contents,
/// which come from the operating system's random source.
#[verifier::external_body]
pub(crate) fn fill_random_bytes(n: usize) -> (r: Option<Vec<u8>>)
    ensures
        r matches Some(v) ==> v@.len() == n,
{
    let mut buf = vec![0u8; n];
    match OsRng.try_fill_bytes(&mut buf) {
        Ok(()) => Some(buf),
        Err(_) => None,
    }
}

} // verus!
