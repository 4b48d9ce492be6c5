use rcli::Blake3;
use rcli::CryptError;
use rcli::Ed25519Signer;
use rcli::Ed25519Verifier;
use rcli::EncryptChaCha20;
use rcli::TextDecrypt;
use rcli::TextEncrypt;
use rcli::TextSign;
use rcli::TextVerifier;

#[test]
fn blake3_type_round_trip() {
    let key = vec![1u8; 32];
    let signer = Blake3::new(key.clone());
    let sig = signer.sign(b"direct use");
    assert_eq!(sig.len(), 32);

    let verifier = Blake3::try_new(&key).unwrap();
    assert!(verifier.verify(b"direct use", &sig).unwrap());
    assert!(!verifier.verify(b"other data", &sig).unwrap());
}

#[test]
fn blake3_try_new_demands_exactly_32_bytes() {
    assert!(matches!(
        Blake3::try_new(&[0u8; 31]),
        Err(CryptError::InvalidKeyLength)
    ));
    assert!(matches!(
        Blake3::try_new(&[0u8; 33]),
        Err(CryptError::InvalidKeyLength)
    ));
    assert!(Blake3::try_new(&[0u8; 32]).is_ok());
}

#[test]
fn ed25519_types_round_trip() {
    let seed = [21u8; 32];
    let signer = Ed25519Signer::new(&seed);
    let sig = signer.sign(b"direct use");
    assert_eq!(sig.len(), 64);

    let pk = ed25519_dalek::SigningKey::from_bytes(&seed)
        .verifying_key()
        .to_bytes();
    let verifier = Ed25519Verifier::try_new(&pk).unwrap();
    assert!(verifier.verify(b"direct use", &sig).unwrap());
    assert!(!verifier.verify(b"tampered", &sig).unwrap());
    assert!(matches!(
        verifier.verify(b"direct use", &sig[..63]),
        Err(CryptError::SignatureLengthMismatch)
    ));
}

#[test]
fn ed25519_try_new_demands_exactly_32_bytes() {
    let seed = [21u8; 32];
    let mut long = seed.to_vec();
    long.extend_from_slice(b"tail");
    assert!(matches!(
        Ed25519Signer::try_new(&long),
        Err(CryptError::InvalidKeyLength)
    ));
    assert!(Ed25519Signer::try_new(&seed).is_ok());
    assert!(matches!(
        Ed25519Signer::try_new(&[0u8; 31]),
        Err(CryptError::InvalidKeyLength)
    ));

    let pk = ed25519_dalek::SigningKey::from_bytes(&seed)
        .verifying_key()
        .to_bytes();
    let mut long_pk = pk.to_vec();
    long_pk.extend_from_slice(b"tail");
    assert!(matches!(
        Ed25519Verifier::try_new(&long_pk),
        Err(CryptError::InvalidKeyLength)
    ));
    assert!(Ed25519Verifier::try_new(&pk).is_ok());
    assert!(matches!(
        Ed25519Verifier::try_new(&[0u8; 31]),
        Err(CryptError::InvalidKeyLength)
    ));
}

#[test]
fn chacha20_type_round_trip() {
    let key = vec![9u8; 32];
    let nonce = vec![4u8; 12];
    let cipher = EncryptChaCha20::new(key.clone(), nonce.clone());
    let ct = cipher.encrypt(b"direct use");
    assert_eq!(ct.len(), b"direct use".len() + 16);

    let mut blob = key;
    blob.extend_from_slice(&nonce);
    let same = EncryptChaCha20::try_new(&blob).unwrap();
    assert_eq!(same.decrypt(&ct).unwrap(), b"direct use".to_vec());

    let mut tampered = ct;
    tampered[0] ^= 1;
    assert!(matches!(
        same.decrypt(&tampered),
        Err(CryptError::AuthenticationFailure)
    ));
}

#[test]
fn chacha20_try_new_demands_44_bytes() {
    assert!(matches!(
        EncryptChaCha20::try_new(&[0u8; 43]),
        Err(CryptError::InvalidKeyLength)
    ));
    assert!(EncryptChaCha20::try_new(&[0u8; 44]).is_ok());
    assert!(EncryptChaCha20::try_new(&[0u8; 60]).is_ok());
}
