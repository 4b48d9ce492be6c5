use base64::Engine;
use rcli::process_text_sign;
use rcli::process_text_verify;
use rcli::CryptError;
use rcli::TextSignFormat;

#[test]
fn test_blake3_sign_verify() {
    let data = b"hello";
    let key = b"0123456789abcdef0123456789abcdef";
    let format = TextSignFormat::Blake3;
    let sig = process_text_sign(data, key, format).unwrap();
    let ret = process_text_verify(data, key, &sig, format).unwrap();
    assert!(ret);
}

#[test]
fn test_ed25519_sign_verify() {
    let data = b"hello";
    let format = TextSignFormat::Ed25519;
    let sk: [u8; 32] = [7u8; 32];
    let pk = ed25519_dalek::SigningKey::from_bytes(&sk)
        .verifying_key()
        .to_bytes();

    let sig = process_text_sign(data, &sk, format).unwrap();
    let encoded = base64::engine::general_purpose::URL_SAFE_NO_PAD.encode(sig);

    let decoded = base64::engine::general_purpose::URL_SAFE_NO_PAD
        .decode(encoded)
        .unwrap();
    assert!(process_text_verify(data, &pk, &decoded, format).is_ok());
}

#[test]
fn keyed_hash_rejects_other_message() {
    let key = [0u8; 32];
    let sig = process_text_sign(b"world", &key, TextSignFormat::Blake3).unwrap();
    let ret = process_text_verify(b"hello", &key, &sig, TextSignFormat::Blake3).unwrap();
    assert!(!ret);
}

#[test]
fn keyed_hash_zero_key_scenario() {
    let key = [0u8; 32];
    let d1 = process_text_sign(b"hello", &key, TextSignFormat::Blake3).unwrap();
    let d2 = process_text_sign(b"hello", &key, TextSignFormat::Blake3).unwrap();
    assert_eq!(d1.len(), 32);
    assert_eq!(d1, d2);
    assert!(process_text_verify(b"hello", &key, &d1, TextSignFormat::Blake3).unwrap());
    assert!(!process_text_verify(b"world", &key, &d1, TextSignFormat::Blake3).unwrap());
}

#[test]
fn keyed_hash_digest_differs_from_input_and_key() {
    let key = [3u8; 32];
    let data = [3u8; 32];
    let sig = process_text_sign(&data, &key, TextSignFormat::Blake3).unwrap();
    assert_ne!(sig.as_slice(), data.as_slice());
    assert_ne!(sig.as_slice(), &key[..]);
}

#[test]
fn keyed_hash_verify_truncates_long_signature() {
    let key = [9u8; 32];
    let mut sig = process_text_sign(b"payload", &key, TextSignFormat::Blake3).unwrap();
    sig.extend_from_slice(b"trailing junk");
    assert!(process_text_verify(b"payload", &key, &sig, TextSignFormat::Blake3).unwrap());
}

#[test]
fn keyed_hash_verify_short_signature_is_false_not_error() {
    let key = [9u8; 32];
    let sig = process_text_sign(b"payload", &key, TextSignFormat::Blake3).unwrap();
    let ret = process_text_verify(b"payload", &key, &sig[..31], TextSignFormat::Blake3).unwrap();
    assert!(!ret);
}

#[test]
fn keyed_hash_wrong_key_length_is_rejected() {
    let short = [0u8; 31];
    let long = [0u8; 33];
    assert_eq!(
        process_text_sign(b"x", &short, TextSignFormat::Blake3).unwrap_err(),
        CryptError::InvalidKeyLength
    );
    assert_eq!(
        process_text_sign(b"x", &long, TextSignFormat::Blake3).unwrap_err(),
        CryptError::InvalidKeyLength
    );
    assert_eq!(
        process_text_verify(b"x", &short, &[0u8; 32], TextSignFormat::Blake3).unwrap_err(),
        CryptError::InvalidKeyLength
    );
}

#[test]
fn asym_round_trip_and_bit_flips_fail() {
    let seed: [u8; 32] = [42u8; 32];
    let pk = ed25519_dalek::SigningKey::from_bytes(&seed)
        .verifying_key()
        .to_bytes();
    let data = b"attack at dawn";
    let sig = process_text_sign(data, &seed, TextSignFormat::Ed25519).unwrap();
    assert_eq!(sig.len(), 64);
    assert!(process_text_verify(data, &pk, &sig, TextSignFormat::Ed25519).unwrap());

    // altering any single bit of the message makes verification return false
    for byte in 0..data.len() {
        for bit in 0..8 {
            let mut flipped = data.to_vec();
            flipped[byte] ^= 1 << bit;
            assert!(!process_text_verify(&flipped, &pk, &sig, TextSignFormat::Ed25519).unwrap());
        }
    }
}

#[test]
fn asym_verify_uses_first_64_bytes_only() {
    let seed: [u8; 32] = [5u8; 32];
    let pk = ed25519_dalek::SigningKey::from_bytes(&seed)
        .verifying_key()
        .to_bytes();
    let data = b"some payload";
    let mut sig = process_text_sign(data, &seed, TextSignFormat::Ed25519).unwrap();
    sig.extend_from_slice(b"lots of extra bytes that must be ignored");
    assert!(process_text_verify(data, &pk, &sig, TextSignFormat::Ed25519).unwrap());
}

#[test]
fn asym_verify_short_signature_is_length_mismatch() {
    let seed: [u8; 32] = [5u8; 32];
    let pk = ed25519_dalek::SigningKey::from_bytes(&seed)
        .verifying_key()
        .to_bytes();
    let data = b"some payload";
    let sig = process_text_sign(data, &seed, TextSignFormat::Ed25519).unwrap();
    let ret = process_text_verify(data, &pk, &sig[..63], TextSignFormat::Ed25519);
    assert_eq!(ret.unwrap_err(), CryptError::SignatureLengthMismatch);
}

#[test]
fn asym_key_material_must_be_exactly_32_bytes() {
    let seed: [u8; 32] = [13u8; 32];
    let mut long_key = seed.to_vec();
    long_key.extend_from_slice(b"extra");
    assert_eq!(
        process_text_sign(b"msg", &long_key, TextSignFormat::Ed25519).unwrap_err(),
        CryptError::InvalidKeyLength
    );

    let pk = ed25519_dalek::SigningKey::from_bytes(&seed)
        .verifying_key()
        .to_bytes();
    let mut long_pk = pk.to_vec();
    long_pk.extend_from_slice(b"extra");
    assert_eq!(
        process_text_verify(b"msg", &long_pk, &[0u8; 64], TextSignFormat::Ed25519).unwrap_err(),
        CryptError::InvalidKeyLength
    );
}

#[test]
fn asym_bad_key_material_is_rejected() {
    assert_eq!(
        process_text_sign(b"x", &[0u8; 31], TextSignFormat::Ed25519).unwrap_err(),
        CryptError::InvalidKeyLength
    );
    assert_eq!(
        process_text_sign(b"x", &[0u8; 33], TextSignFormat::Ed25519).unwrap_err(),
        CryptError::InvalidKeyLength
    );
    assert_eq!(
        process_text_verify(b"x", &[0u8; 31], &[0u8; 64], TextSignFormat::Ed25519).unwrap_err(),
        CryptError::InvalidKeyLength
    );

    // a 32-byte value that does not decode to a verifying key is rejected too
    let mut bad = None;
    for i in 0..=255u8 {
        let candidate = [i; 32];
        if ed25519_dalek::VerifyingKey::from_bytes(&candidate).is_err() {
            bad = Some(candidate);
            break;
        }
    }
    let bad = bad.expect("some constant key encoding must be invalid");
    assert_eq!(
        process_text_verify(b"x", &bad, &[0u8; 64], TextSignFormat::Ed25519).unwrap_err(),
        CryptError::InvalidKeyLength
    );
}

#[test]
fn unsupported_tag_operation_pairs_are_rejected() {
    let key = [0u8; 44];
    assert_eq!(
        process_text_sign(b"x", &key, TextSignFormat::ChaCha20).unwrap_err(),
        CryptError::UnsupportedOperation
    );
    assert_eq!(
        process_text_verify(b"x", &key, &[0u8; 64], TextSignFormat::ChaCha20).unwrap_err(),
        CryptError::UnsupportedOperation
    );
}

#[test]
fn error_messages_name_each_failure() {
    assert_eq!(CryptError::InvalidKeyLength.message(), "invalid key length");
    assert_eq!(
        CryptError::UnsupportedOperation.message(),
        "unsupported operation"
    );
    assert_eq!(
        CryptError::SignatureLengthMismatch.message(),
        "signature length mismatch"
    );
    assert_eq!(
        CryptError::AuthenticationFailure.message(),
        "authentication failure"
    );
    assert_eq!(CryptError::IOFailure.message(), "io failure");
}
