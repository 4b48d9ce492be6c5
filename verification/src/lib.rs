//! A small engine of text cryptographic primitives: keyed integrity signing,
//! asymmetric digital signatures, and authenticated symmetric encryption,
//! selectable by an algorithm tag and operating over in-memory byte buffers.

mod algo;
mod duration;
mod errors;
mod genpass;
mod jwt;
mod laws;
mod primitives;
mod text;

pub use algo::TextSignFormat;
pub use duration::all_digits;
pub use duration::digits_value;
pub use duration::number_part;
pub use duration::parse_duration;
pub use duration::spec_parse_duration;
pub use duration::unit_seconds;
pub use errors::CryptError;
pub use genpass::in_charset;
pub use genpass::in_full_charset;
pub use genpass::is_digit_byte;
pub use genpass::is_lower_byte;
pub use genpass::is_symbol_byte;
pub use genpass::is_upper_byte;
pub use genpass::process_genpass;
pub use jwt::jwt_bundle_ok;
pub use jwt::process_jwt_secret_generate;
pub use laws::lemma_asym_sign_verifies;
pub use laws::lemma_asym_verify_reads_first_64_bytes;
pub use laws::lemma_asym_verify_rejects_short_signature;
pub use laws::lemma_cipher_round_trip;
pub use laws::lemma_keyed_hash_sign_verifies;
pub use primitives::asym_accepts;
pub use primitives::asym_key_valid;
pub use primitives::asym_signature;
pub use primitives::asym_verifying_key;
pub use primitives::cipher_opened;
pub use primitives::cipher_sealed;
pub use primitives::keyed_digest;
pub use primitives::MAX_MESSAGE_LEN;
pub use text::asym_bundle_ok;
pub use text::cipher_bundle_ok;
pub use text::keyed_hash_bundle_ok;
pub use text::process_text_decrypt;
pub use text::process_text_encrypt;
pub use text::process_text_key_generate;
pub use text::process_text_sign;
pub use text::process_text_verify;
pub use text::spec_text_decrypt;
pub use text::spec_text_encrypt;
pub use text::spec_text_sign;
pub use text::spec_text_verify;
pub use text::Blake3;
pub use text::Ed25519Signer;
pub use text::Ed25519Verifier;
pub use text::EncryptChaCha20;
pub use text::KeyBundle;
pub use text::TextDecrypt;
pub use text::TextEncrypt;
pub use text::TextSign;
pub use text::TextVerifier;
