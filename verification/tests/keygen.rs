use rcli::process_genpass;
use rcli::process_jwt_secret_generate;
use rcli::process_text_decrypt;
use rcli::process_text_encrypt;
use rcli::process_text_key_generate;
use rcli::process_text_sign;
use rcli::process_text_verify;
use rcli::TextSignFormat;

fn in_full_charset(b: u8) -> bool {
    b.is_ascii_uppercase()
        || b.is_ascii_lowercase()
        || b.is_ascii_digit()
        || b"!#$%&*@^_".contains(&b)
}

#[test]
fn keyed_hash_generation_shape() {
    let bundle = process_text_key_generate(TextSignFormat::Blake3).unwrap();
    assert_eq!(bundle.len(), 1);
    assert_eq!(bundle[0].0, "blake3.txt");
    assert_eq!(bundle[0].1.len(), 32);
    assert!(bundle[0].1.iter().all(|&b| in_full_charset(b)));
}

#[test]
fn asym_generation_shape_and_pairing() {
    let bundle = process_text_key_generate(TextSignFormat::Ed25519).unwrap();
    assert_eq!(bundle.len(), 2);
    assert_eq!(bundle[0].0, "ed25519_sk.txt");
    assert_eq!(bundle[1].0, "ed25519_pk.txt");
    assert_eq!(bundle[0].1.len(), 32);
    assert_eq!(bundle[1].1.len(), 32);

    // the two artifacts really are a signing pair
    let sk: [u8; 32] = bundle[0].1.as_slice().try_into().unwrap();
    let derived = ed25519_dalek::SigningKey::from_bytes(&sk)
        .verifying_key()
        .to_bytes();
    assert_eq!(bundle[1].1.as_slice(), &derived[..]);

    let sig = process_text_sign(b"paired", &bundle[0].1, TextSignFormat::Ed25519).unwrap();
    assert!(process_text_verify(b"paired", &bundle[1].1, &sig, TextSignFormat::Ed25519).unwrap());
}

#[test]
fn cipher_generation_shape_and_use() {
    let bundle = process_text_key_generate(TextSignFormat::ChaCha20).unwrap();
    assert_eq!(bundle.len(), 1);
    assert_eq!(bundle[0].0, "chacha20.txt");
    assert_eq!(bundle[0].1.len(), 48);
    assert!(bundle[0].1.len() >= 44);
    assert!(bundle[0].1.iter().all(|&b| in_full_charset(b)));

    // the generated blob drives a working encrypt/decrypt round trip
    let ct = process_text_encrypt(b"round trip", &bundle[0].1, TextSignFormat::ChaCha20).unwrap();
    let back = process_text_decrypt(&ct, &bundle[0].1, TextSignFormat::ChaCha20).unwrap();
    assert_eq!(back, b"round trip".to_vec());
}

#[test]
fn generated_keyed_hash_secret_signs() {
    let bundle = process_text_key_generate(TextSignFormat::Blake3).unwrap();
    let sig = process_text_sign(b"fresh", &bundle[0].1, TextSignFormat::Blake3).unwrap();
    assert!(process_text_verify(b"fresh", &bundle[0].1, &sig, TextSignFormat::Blake3).unwrap());
}

#[test]
fn jwt_secret_generation_shape() {
    let bundle = process_jwt_secret_generate().unwrap();
    assert_eq!(bundle.len(), 1);
    assert_eq!(bundle[0].0, "jwt.txt");
    assert_eq!(bundle[0].1.len(), 32);
    assert!(bundle[0].1.iter().all(|&b| in_full_charset(b)));
}

#[test]
fn genpass_length_and_classes() {
    let p = process_genpass(100, true, true, true, true).unwrap();
    assert_eq!(p.len(), 100);
    assert!(p.iter().all(|&b| in_full_charset(b)));

    let digits_only = process_genpass(64, false, false, true, false).unwrap();
    assert_eq!(digits_only.len(), 64);
    assert!(digits_only.iter().all(|b| b.is_ascii_digit()));

    let letters = process_genpass(64, true, true, false, false).unwrap();
    assert!(letters
        .iter()
        .all(|b| b.is_ascii_uppercase() || b.is_ascii_lowercase()));

    let empty = process_genpass(0, true, false, false, false).unwrap();
    assert!(empty.is_empty());
}
