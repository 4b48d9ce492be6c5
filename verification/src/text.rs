//! The cryptographic engine: one capability type per scheme, the capability
//! traits they implement, and the dispatch functions that select a scheme by
//! its tag, validate the key material, and run the requested operation.

use vstd::prelude::*;

use crate::algo::TextSignFormat;
use crate::errors::CryptError;
use crate::genpass::in_full_charset;
use crate::genpass::process_genpass;
use crate::primitives::asym_accepts;
use crate::primitives::asym_key_valid;
use crate::primitives::asym_signature;
use crate::primitives::asym_verifying_key;
use crate::primitives::blake3_keyed_hash;
use crate::primitives::cipher_opened;
use crate::primitives::cipher_sealed;
use crate::primitives::chacha20_decrypt_bytes;
use crate::primitives::chacha20_encrypt_bytes;
use crate::primitives::ed25519_derive_verifying_key;
use crate::primitives::ed25519_key_decodes;
use crate::primitives::ed25519_sign_bytes;
use crate::primitives::ed25519_verify_bytes;
use crate::primitives::fill_random_bytes;
use crate::primitives::keyed_digest;
use crate::primitives::MAX_MESSAGE_LEN;
use vstd::slice::slice_index_get;
use vstd::slice::slice_subrange;
use vstd::slice::slice_to_vec;

verus! {

/// A bundle of freshly generated key material: artifact name to bytes, for
/// the caller to persist. The engine only produces these, never reads them.
pub type KeyBundle = Vec<(&'static str, Vec<u8>)>;

/// A scheme that can produce a signature over a byte buffer.
pub trait TextSign {
    /// The key material held by this instance is well-formed.
    spec fn wf(&self) -> bool;

    /// The signature this instance produces over `data`.
    spec fn signature_of(&self, data: Seq<u8>) -> Seq<u8>;

    /// The scheme's fixed signature length.
    spec fn signature_len(&self) -> nat;

    /// The scheme's own verifying side accepts `sig` over `data`.
    spec fn signature_accepted(&self, data: Seq<u8>, sig: Seq<u8>) -> bool;

    /// Sign the data and return the signature bytes, which the scheme's
    /// verifying side accepts over the same data.
    fn sign(&self, data: &[u8]) -> (r: Vec<u8>)
        requires
            self.wf(),
        ensures
            r@ == self.signature_of(data@),
            r@.len() == self.signature_len(),
            self.signature_accepted(data@, r@),
    ;
}

/// A scheme that can check a signature over a byte buffer.
///
/// A mismatch (wrong signature, wrong key) is the boolean `false`, not an
/// error; an error says the check could not be attempted at all.
pub trait TextVerifier {
    /// The key material held by this instance is well-formed.
    spec fn wf(&self) -> bool;

    /// The exact outcome of verifying `sig` over `data`.
    spec fn verdict(&self, data: Seq<u8>, sig: Seq<u8>) -> Result<bool, CryptError>;

    /// Verify the data against the signature.
    fn verify(&self, data: &[u8], sig: &[u8]) -> (r: Result<bool, CryptError>)
        requires
            self.wf(),
        ensures
            r == self.verdict(data@, sig@),
    ;
}

/// A scheme that can encrypt a byte buffer.
pub trait TextEncrypt {
    /// The key material held by this instance is well-formed.
    spec fn wf(&self) -> bool;

    /// The ciphertext this instance produces for `plain`.
    spec fn sealed(&self, plain: Seq<u8>) -> Seq<u8>;

    /// The scheme's decrypt side recovers `plain` from `cipher`.
    spec fn opens_back(&self, plain: Seq<u8>, cipher: Seq<u8>) -> bool;

    /// Encrypt the data and return the ciphertext with its tag appended;
    /// the scheme's decrypt side recovers the data from it.
    fn encrypt(&self, data: &[u8]) -> (r: Vec<u8>)
        requires
            self.wf(),
            data@.len() <= MAX_MESSAGE_LEN,
        ensures
            r@ == self.sealed(data@),
            r@.len() == data@.len() + 16,
            self.opens_back(data@, r@),
    ;
}

/// A scheme that can decrypt a byte buffer produced by its encrypt side.
pub trait TextDecrypt {
    /// The key material held by this instance is well-formed.
    spec fn wf(&self) -> bool;

    /// The plaintext hidden in `cipher`, or `None` when its tag fails.
    spec fn opened(&self, cipher: Seq<u8>) -> Option<Seq<u8>>;

    /// Decrypt the buffer, or report `AuthenticationFailure` when the tag
    /// does not check out. No partial plaintext is ever returned. The bound
    /// admits every ciphertext the encrypt side can produce: a plaintext at
    /// the cap plus the 16-byte tag.
    fn decrypt(&self, buf: &[u8]) -> (r: Result<Vec<u8>, CryptError>)
        requires
            self.wf(),
            buf@.len() <= MAX_MESSAGE_LEN + 16,
        ensures
            match r {
                Ok(p) => self.opened(buf@) == Some(p@),
                Err(e) => self.opened(buf@) is None && e == CryptError::AuthenticationFailure,
            },
    ;
}

/// The keyed-hash scheme: the same 32-byte secret signs and verifies, and the
/// signature is the keyed digest of the whole buffer.
pub struct Blake3 {
    key: Vec<u8>,
}

impl Blake3 {
    /// The held key is exactly 32 bytes.
    pub closed spec fn wf_key(&self) -> bool {
        self.key@.len() == 32
    }

    /// The key bytes this instance was built from.
    pub closed spec fn key_bytes(&self) -> Seq<u8> {
        self.key@
    }

    /// Bind the scheme to a 32-byte key.
    pub fn new(key: Vec<u8>) -> (r: Self)
        requires
            key@.len() == 32,
        ensures
            r.wf_key(),
            r.key_bytes() == key@,
    {
        Blake3 { key }
    }

    /// Bind the scheme to caller-supplied key bytes, rejecting any length
    /// other than 32.
    pub fn try_new(key: &[u8]) -> (r: Result<Self, CryptError>)
        ensures
            match r {
                Ok(b) => key@.len() == 32 && b.wf_key() && b.key_bytes() == key@,
                Err(e) => key@.len() != 32 && e == CryptError::InvalidKeyLength,
            },
    {
        if key.len() == 32 {
            Ok(Blake3::new(slice_to_vec(key)))
        } else {
            Err(CryptError::InvalidKeyLength)
        }
    }

    /// Generate a fresh 32-byte keyed-hash secret, bundled for persistence.
    pub fn generate() -> (r: Result<KeyBundle, CryptError>)
        ensures
            r matches Ok(b) ==> keyed_hash_bundle_ok(b),
            r matches Err(e) ==> e == CryptError::IOFailure,
    {
        let key = process_genpass(32, true, true, true, true)?;
        let mut bundle: KeyBundle = Vec::new();
        bundle.push(("blake3.txt", key));
        Ok(bundle)
    }
}

impl TextSign for Blake3 {
    open spec fn wf(&self) -> bool {
        self.wf_key()
    }

    open spec fn signature_of(&self, data: Seq<u8>) -> Seq<u8> {
        keyed_digest(self.key_bytes(), data)
    }

    open spec fn signature_len(&self) -> nat {
        32
    }

    open spec fn signature_accepted(&self, data: Seq<u8>, sig: Seq<u8>) -> bool {
        sig.len() >= 32 && sig.take(32) == keyed_digest(self.key_bytes(), data)
    }

    fn sign(&self, data: &[u8]) -> (r: Vec<u8>) {
        let r = blake3_keyed_hash(self.key.as_slice(), data);
        proof {
            assert(r@.take(32) =~= r@);
        }
        r
    }
}

impl TextVerifier for Blake3 {
    open spec fn wf(&self) -> bool {
        self.wf_key()
    }

    open spec fn verdict(&self, data: Seq<u8>, sig: Seq<u8>) -> Result<bool, CryptError> {
        Ok(sig.len() >= 32 && sig.take(32) == keyed_digest(self.key_bytes(), data))
    }

    fn verify(&self, data: &[u8], sig: &[u8]) -> (r: Result<bool, CryptError>) {
        let digest = blake3_keyed_hash(self.key.as_slice(), data);
        if sig.len() < 32 {
            return Ok(false);
        }
        let head = slice_subrange(sig, 0, 32);
        let same = compare_bytes(head, digest.as_slice());
        Ok(same)
    }
}

/// The asymmetric-signature scheme, signing side: a 32-byte seed
/// deterministically derives the signing key.
pub struct Ed25519Signer {
    seed: Vec<u8>,
}

impl Ed25519Signer {
    /// The held seed is exactly 32 bytes.
    pub closed spec fn wf_key(&self) -> bool {
        self.seed@.len() == 32
    }

    /// The seed bytes this instance was built from.
    pub closed spec fn seed_bytes(&self) -> Seq<u8> {
        self.seed@
    }

    /// Bind the scheme to a 32-byte signing seed.
    pub fn new(key: &[u8]) -> (r: Self)
        requires
            key@.len() == 32,
        ensures
            r.wf_key(),
            r.seed_bytes() == key@,
    {
        Ed25519Signer { seed: slice_to_vec(key) }
    }

    /// Bind the scheme to caller-supplied key bytes, rejecting any length
    /// other than the seed's 32.
    pub fn try_new(key: &[u8]) -> (r: Result<Self, CryptError>)
        ensures
            match r {
                Ok(s) => key@.len() == 32 && s.wf_key() && s.seed_bytes() == key@,
                Err(e) => key@.len() != 32 && e == CryptError::InvalidKeyLength,
            },
    {
        if key.len() == 32 {
            Ok(Ed25519Signer::new(key))
        } else {
            Err(CryptError::InvalidKeyLength)
        }
    }

    /// Generate a fresh 32-byte signing seed and its derived verifying key,
    /// bundled for persistence.
    pub fn generate() -> (r: Result<KeyBundle, CryptError>)
        ensures
            r matches Ok(b) ==> asym_bundle_ok(b),
            r matches Err(e) ==> e == CryptError::IOFailure,
    {
        let seed = match fill_random_bytes(32) {
            Some(v) => v,
            None => {
                return Err(CryptError::IOFailure);
            },
        };
        let vk = ed25519_derive_verifying_key(seed.as_slice());
        let mut bundle: KeyBundle = Vec::new();
        bundle.push(("ed25519_sk.txt", seed));
        bundle.push(("ed25519_pk.txt", vk));
        Ok(bundle)
    }
}

impl TextSign for Ed25519Signer {
    open spec fn wf(&self) -> bool {
        self.wf_key()
    }

    open spec fn signature_of(&self, data: Seq<u8>) -> Seq<u8> {
        asym_signature(self.seed_bytes(), data)
    }

    open spec fn signature_len(&self) -> nat {
        64
    }

    open spec fn signature_accepted(&self, data: Seq<u8>, sig: Seq<u8>) -> bool {
        asym_accepts(asym_verifying_key(self.seed_bytes()), data, sig)
    }

    fn sign(&self, data: &[u8]) -> (r: Vec<u8>) {
        ed25519_sign_bytes(self.seed.as_slice(), data)
    }
}

/// The asymmetric-signature scheme, verifying side: holds the 32-byte
/// encoding of a well-formed verifying key.
pub struct Ed25519Verifier {
    key: Vec<u8>,
}

impl Ed25519Verifier {
    /// The held key is a 32-byte encoding of a well-formed verifying key.
    pub closed spec fn wf_key(&self) -> bool {
        self.key@.len() == 32 && asym_key_valid(self.key@)
    }

    /// The verifying-key bytes this instance was built from.
    pub closed spec fn key_bytes(&self) -> Seq<u8> {
        self.key@
    }

    /// Bind the scheme to caller-supplied key bytes, rejecting any length
    /// other than 32 and any 32 bytes that do not decode to a well-formed
    /// verifying key.
    pub fn try_new(key: &[u8]) -> (r: Result<Self, CryptError>)
        ensures
            match r {
                Ok(v) => key@.len() == 32 && asym_key_valid(key@) && v.wf_key() && v.key_bytes()
                    == key@,
                Err(e) => (key@.len() != 32 || !asym_key_valid(key@)) && e
                    == CryptError::InvalidKeyLength,
            },
    {
        if key.len() == 32 {
            if ed25519_key_decodes(key) {
                Ok(Ed25519Verifier { key: slice_to_vec(key) })
            } else {
                Err(CryptError::InvalidKeyLength)
            }
        } else {
            Err(CryptError::InvalidKeyLength)
        }
    }
}

impl TextVerifier for Ed25519Verifier {
    open spec fn wf(&self) -> bool {
        self.wf_key()
    }

    open spec fn verdict(&self, data: Seq<u8>, sig: Seq<u8>) -> Result<bool, CryptError> {
        if sig.len() < 64 {
            Err(CryptError::SignatureLengthMismatch)
        } else {
            Ok(asym_accepts(self.key_bytes(), data, sig.take(64)))
        }
    }

    fn verify(&self, data: &[u8], sig: &[u8]) -> (r: Result<bool, CryptError>) {
        if sig.len() < 64 {
            return Err(CryptError::SignatureLengthMismatch);
        }
        let head = slice_subrange(sig, 0, 64);
        Ok(ed25519_verify_bytes(self.key.as_slice(), data, head))
    }
}

/// The authenticated-cipher scheme: a 32-byte key and a 12-byte nonce,
/// handed over as one blob whose first 44 bytes are key then nonce.
pub struct EncryptChaCha20 {
    key: Vec<u8>,
    nonce: Vec<u8>,
}

impl EncryptChaCha20 {
    /// The held key is 32 bytes and the nonce 12.
    pub closed spec fn wf_key(&self) -> bool {
        self.key@.len() == 32 && self.nonce@.len() == 12
    }

    /// The key bytes this instance was built from.
    pub closed spec fn key_bytes(&self) -> Seq<u8> {
        self.key@
    }

    /// The nonce bytes this instance was built from.
    pub closed spec fn nonce_bytes(&self) -> Seq<u8> {
        self.nonce@
    }

    /// Bind the scheme to a 32-byte key and a 12-byte nonce.
    pub fn new(key: Vec<u8>, nonce: Vec<u8>) -> (r: Self)
        requires
            key@.len() == 32,
            nonce@.len() == 12,
        ensures
            r.wf_key(),
            r.key_bytes() == key@,
            r.nonce_bytes() == nonce@,
    {
        EncryptChaCha20 { key, nonce }
    }

    /// Bind the scheme to a caller-supplied blob: the first 32 bytes are the
    /// key, the next 12 the nonce, anything beyond the first 44 is ignored,
    /// fewer than 44 are rejected.
    pub fn try_new(key_and_nonce: &[u8]) -> (r: Result<Self, CryptError>)
        ensures
            match r {
                Ok(c) => key_and_nonce@.len() >= 44 && c.wf_key() && c.key_bytes()
                    == key_and_nonce@.take(32) && c.nonce_bytes() == key_and_nonce@.subrange(
                    32,
                    44,
                ),
                Err(e) => key_and_nonce@.len() < 44 && e == CryptError::InvalidKeyLength,
            },
    {
        if key_and_nonce.len() >= 44 {
            let key = slice_to_vec(slice_subrange(key_and_nonce, 0, 32));
            let nonce = slice_to_vec(slice_subrange(key_and_nonce, 32, 44));
            Ok(EncryptChaCha20::new(key, nonce))
        } else {
            Err(CryptError::InvalidKeyLength)
        }
    }

    /// Generate a fresh 48-byte key-and-nonce blob, bundled for persistence.
    pub fn generate() -> (r: Result<KeyBundle, CryptError>)
        ensures
            r matches Ok(b) ==> cipher_bundle_ok(b),
            r matches Err(e) ==> e == CryptError::IOFailure,
    {
        let key = process_genpass(48, true, true, true, true)?;
        let mut bundle: KeyBundle = Vec::new();
        bundle.push(("chacha20.txt", key));
        Ok(bundle)
    }
}

impl TextEncrypt for EncryptChaCha20 {
    open spec fn wf(&self) -> bool {
        self.wf_key()
    }

    open spec fn sealed(&self, plain: Seq<u8>) -> Seq<u8> {
        cipher_sealed(self.key_bytes(), self.nonce_bytes(), plain)
    }

    open spec fn opens_back(&self, plain: Seq<u8>, cipher: Seq<u8>) -> bool {
        cipher_opened(self.key_bytes(), self.nonce_bytes(), cipher) == Some(plain)
    }

    fn encrypt(&self, data: &[u8]) -> (r: Vec<u8>) {
        chacha20_encrypt_bytes(self.key.as_slice(), self.nonce.as_slice(), data)
    }
}

impl TextDecrypt for EncryptChaCha20 {
    open spec fn wf(&self) -> bool {
        self.wf_key()
    }

    open spec fn opened(&self, cipher: Seq<u8>) -> Option<Seq<u8>> {
        cipher_opened(self.key_bytes(), self.nonce_bytes(), cipher)
    }

    fn decrypt(&self, buf: &[u8]) -> (r: Result<Vec<u8>, CryptError>) {
        match chacha20_decrypt_bytes(self.key.as_slice(), self.nonce.as_slice(), buf) {
            Some(plain) => Ok(plain),
            None => Err(CryptError::AuthenticationFailure),
        }
    }
}

/// A generated keyed-hash bundle: one 32-byte secret drawn from the full
/// character set, under the artifact name `blake3.txt`.
pub open spec fn keyed_hash_bundle_ok(b: KeyBundle) -> bool {
    &&& b@.len() == 1
    &&& b@[0].0@ == "blake3.txt"@
    &&& b@[0].1@.len() == 32
    &&& forall|i: int| 0 <= i < b@[0].1@.len() ==> in_full_charset(#[trigger] b@[0].1@[i])
}

/// A generated asymmetric-signature bundle: a fresh 32-byte seed under
/// `ed25519_sk.txt`, and the verifying key derived from exactly that seed
/// under `ed25519_pk.txt`.
pub open spec fn asym_bundle_ok(b: KeyBundle) -> bool {
    &&& b@.len() == 2
    &&& b@[0].0@ == "ed25519_sk.txt"@
    &&& b@[0].1@.len() == 32
    &&& b@[1].0@ == "ed25519_pk.txt"@
    &&& b@[1].1@ == asym_verifying_key(b@[0].1@)
    &&& b@[1].1@.len() == 32
    &&& asym_key_valid(b@[1].1@)
}

/// A generated authenticated-cipher bundle: one 48-byte blob drawn from the
/// full character set, under `chacha20.txt`. Construction later reads its
/// first 44 bytes as key and nonce and ignores the rest.
pub open spec fn cipher_bundle_ok(b: KeyBundle) -> bool {
    &&& b@.len() == 1
    &&& b@[0].0@ == "chacha20.txt"@
    &&& b@[0].1@.len() == 48
    &&& forall|i: int| 0 <= i < b@[0].1@.len() ==> in_full_charset(#[trigger] b@[0].1@[i])
}

/// The exact outcome of signing `data` with `key` under `format`: both
/// signing schemes want exactly 32 key bytes — the keyed-hash secret or the
/// asymmetric seed; the cipher cannot sign.
pub open spec fn spec_text_sign(format: TextSignFormat, key: Seq<u8>, data: Seq<u8>) -> Result<
    Seq<u8>,
    CryptError,
> {
    match format {
        TextSignFormat::Blake3 => if key.len() == 32 {
            Ok(keyed_digest(key, data))
        } else {
            Err(CryptError::InvalidKeyLength)
        },
        TextSignFormat::Ed25519 => if key.len() == 32 {
            Ok(asym_signature(key, data))
        } else {
            Err(CryptError::InvalidKeyLength)
        },
        TextSignFormat::ChaCha20 => Err(CryptError::UnsupportedOperation),
    }
}

/// The exact outcome of verifying `sig` over `data` with `key` under
/// `format`. The keyed-hash scheme reports a mismatch as `false`, never as
/// an error, and checks the first 32 signature bytes; the asymmetric scheme
/// wants exactly 32 key bytes that decode to a verifying key and checks the
/// first 64 signature bytes, rejecting shorter signatures outright; the
/// cipher cannot verify.
pub open spec fn spec_text_verify(
    format: TextSignFormat,
    key: Seq<u8>,
    data: Seq<u8>,
    sig: Seq<u8>,
) -> Result<bool, CryptError> {
    match format {
        TextSignFormat::Blake3 => if key.len() == 32 {
            Ok(sig.len() >= 32 && sig.take(32) == keyed_digest(key, data))
        } else {
            Err(CryptError::InvalidKeyLength)
        },
        TextSignFormat::Ed25519 => if key.len() != 32 || !asym_key_valid(key) {
            Err(CryptError::InvalidKeyLength)
        } else if sig.len() < 64 {
            Err(CryptError::SignatureLengthMismatch)
        } else {
            Ok(asym_accepts(key, data, sig.take(64)))
        },
        TextSignFormat::ChaCha20 => Err(CryptError::UnsupportedOperation),
    }
}

/// The exact outcome of encrypting `data` with `key` under `format`: only
/// the cipher encrypts, reading its key and nonce from the first 44 bytes of
/// `key`.
pub open spec fn spec_text_encrypt(format: TextSignFormat, key: Seq<u8>, data: Seq<u8>) -> Result<
    Seq<u8>,
    CryptError,
> {
    match format {
        TextSignFormat::ChaCha20 => if key.len() >= 44 {
            Ok(cipher_sealed(key.take(32), key.subrange(32, 44), data))
        } else {
            Err(CryptError::InvalidKeyLength)
        },
        _ => Err(CryptError::UnsupportedOperation),
    }
}

/// The exact outcome of decrypting `cipher` with `key` under `format`: only
/// the cipher decrypts, and a failed authentication tag is
/// `AuthenticationFailure`, with no partial plaintext.
pub open spec fn spec_text_decrypt(format: TextSignFormat, key: Seq<u8>, cipher: Seq<u8>) -> Result<
    Seq<u8>,
    CryptError,
> {
    match format {
        TextSignFormat::ChaCha20 => if key.len() >= 44 {
            match cipher_opened(key.take(32), key.subrange(32, 44), cipher) {
                Some(plain) => Ok(plain),
                None => Err(CryptError::AuthenticationFailure),
            }
        } else {
            Err(CryptError::InvalidKeyLength)
        },
        _ => Err(CryptError::UnsupportedOperation),
    }
}

/// Sign `data` with the scheme picked by `format`, bound to `key`. The
/// returned signature has the scheme's fixed length and is accepted by the
/// scheme's own verifying side: the keyed-hash digest verifies under the
/// same key, an asymmetric signature under the verifying key derived from
/// the seed.
pub fn process_text_sign(data: &[u8], key: &[u8], format: TextSignFormat) -> (r: Result<
    Vec<u8>,
    CryptError,
>)
    ensures
        match r {
            Ok(v) => spec_text_sign(format, key@, data@) == Ok::<Seq<u8>, CryptError>(v@),
            Err(e) => spec_text_sign(format, key@, data@) == Err::<Seq<u8>, CryptError>(e),
        },
        r matches Ok(v) ==> (format is Blake3 ==> v@.len() == 32),
        r matches Ok(v) ==> (format is Ed25519 ==> v@.len() == 64 && asym_accepts(
            asym_verifying_key(key@),
            data@,
            v@,
        )),
{
    match format {
        TextSignFormat::Blake3 => {
            let signer = Blake3::try_new(key)?;
            Ok(signer.sign(data))
        },
        TextSignFormat::Ed25519 => {
            let signer = Ed25519Signer::try_new(key)?;
            Ok(signer.sign(data))
        },
        TextSignFormat::ChaCha20 => Err(CryptError::UnsupportedOperation),
    }
}

/// Verify `sig` over `data` with the scheme picked by `format`, bound to
/// `key`. A mismatch is `Ok(false)`; an error says the check could not be
/// attempted.
pub fn process_text_verify(data: &[u8], key: &[u8], sig: &[u8], format: TextSignFormat) -> (r:
    Result<bool, CryptError>)
    ensures
        r == spec_text_verify(format, key@, data@, sig@),
{
    match format {
        TextSignFormat::Blake3 => {
            let verifier = Blake3::try_new(key)?;
            verifier.verify(data, sig)
        },
        TextSignFormat::Ed25519 => {
            let verifier = Ed25519Verifier::try_new(key)?;
            verifier.verify(data, sig)
        },
        TextSignFormat::ChaCha20 => Err(CryptError::UnsupportedOperation),
    }
}

/// Encrypt `data` with the scheme picked by `format`, bound to the key and
/// nonce in `key`. The ciphertext is the plaintext's length plus the 16-byte
/// tag, and decrypting it under the same key material returns the plaintext.
pub fn process_text_encrypt(data: &[u8], key: &[u8], format: TextSignFormat) -> (r: Result<
    Vec<u8>,
    CryptError,
>)
    requires
        data@.len() <= MAX_MESSAGE_LEN,
    ensures
        match r {
            Ok(v) => spec_text_encrypt(format, key@, data@) == Ok::<Seq<u8>, CryptError>(v@),
            Err(e) => spec_text_encrypt(format, key@, data@) == Err::<Seq<u8>, CryptError>(e),
        },
        r matches Ok(v) ==> v@.len() == data@.len() + 16 && cipher_opened(
            key@.take(32),
            key@.subrange(32, 44),
            v@,
        ) == Some(data@),
{
    match format {
        TextSignFormat::ChaCha20 => {
            let cipher = EncryptChaCha20::try_new(key)?;
            Ok(cipher.encrypt(data))
        },
        _ => Err(CryptError::UnsupportedOperation),
    }
}

/// Decrypt `cipher` with the scheme picked by `format`, bound to the key and
/// nonce in `key`.
pub fn process_text_decrypt(cipher: &[u8], key: &[u8], format: TextSignFormat) -> (r: Result<
    Vec<u8>,
    CryptError,
>)
    requires
        cipher@.len() <= MAX_MESSAGE_LEN + 16,
    ensures
        match r {
            Ok(v) => spec_text_decrypt(format, key@, cipher@) == Ok::<Seq<u8>, CryptError>(v@),
            Err(e) => spec_text_decrypt(format, key@, cipher@) == Err::<Seq<u8>, CryptError>(e),
        },
{
    match format {
        TextSignFormat::ChaCha20 => {
            let c = EncryptChaCha20::try_new(key)?;
            c.decrypt(cipher)
        },
        _ => Err(CryptError::UnsupportedOperation),
    }
}

/// Generate fresh key material for the scheme picked by `format`: the
/// keyed-hash secret, the asymmetric seed with its derived verifying key, or
/// the cipher's key-and-nonce blob. The only failure is the operating
/// system's random source failing.
pub fn process_text_key_generate(format: TextSignFormat) -> (r: Result<KeyBundle, CryptError>)
    ensures
        r matches Ok(b) ==> match format {
            TextSignFormat::Blake3 => keyed_hash_bundle_ok(b),
            TextSignFormat::Ed25519 => asym_bundle_ok(b),
            TextSignFormat::ChaCha20 => cipher_bundle_ok(b),
        },
        r matches Err(e) ==> e == CryptError::IOFailure,
{
    match format {
        TextSignFormat::Blake3 => Blake3::generate(),
        TextSignFormat::Ed25519 => Ed25519Signer::generate(),
        TextSignFormat::ChaCha20 => EncryptChaCha20::generate(),
    }
}

/// Whether two byte buffers of the same length hold the same bytes. The walk
/// never stops early on a mismatch, so the comparison takes the same time
/// whether a candidate signature fails at its first byte or its last; only
/// the lengths, which are public, decide how long it runs.
fn compare_bytes(a: &[u8], b: &[u8]) -> (r: bool)
    ensures
        r == (a@ == b@),
{
    if a.len() != b.len() {
        return false;
    }
    let n = a.len();
    let mut acc: u8 = 0;
    let mut i: usize = 0;
    while i < n
        invariant
            n == a@.len(),
            n == b@.len(),
            i <= n,
            acc == 0 <==> (forall|j: int| 0 <= j < i ==> a@[j] == b@[j]),
        decreases n - i,
    {
        let x = *slice_index_get(a, i);
        let y = *slice_index_get(b, i);
        let d = x ^ y;
        proof {
            assert((x ^ y) == 0 <==> x == y) by (bit_vector);
            assert((acc | d) == 0 <==> acc == 0 && d == 0) by (bit_vector);
        }
        acc = acc | d;
        i = i + 1;
    }
    if acc == 0 {
        proof {
            assert(a@ =~= b@);
        }
        true
    } else {
        false
    }
}

} // verus!
