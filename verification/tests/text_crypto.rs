use base64::engine::general_purpose::{STANDARD, URL_SAFE_NO_PAD};
use base64::Engine;
use chacha20poly1305::aead::Aead;
use chacha20poly1305::KeyInit;
use ed25519_dalek::Signer;
use cli::{
    process_text_decrypt, process_text_encrypt, process_text_generate, process_text_sign,
    process_text_verify, Blake3, CryptoError, Ed25519Signer, Ed25519Verifier, KeyGenerator,
    KeyLoader, TextSign, TextSignFormat, TextVerify,
};

const KEY32: &[u8] = b"0123456789abcdef0123456789abcdef";

#[test]
fn test_blake3_sign_verify() {
    let blake3 = Blake3::load(KEY32).unwrap();

    let data = b"hello";
    let sig = blake3.sign(data).unwrap();

    assert!(blake3.verify(data, &sig).unwrap());
}

#[test]
fn text_ed25519_sign_verify() {
    let blocks = process_text_generate(TextSignFormat::Ed25519).unwrap();
    let sk = Ed25519Signer::load(&blocks[0]).unwrap();
    let pk = Ed25519Verifier::load(&blocks[1]).unwrap();

    let data = b"hello";
    let sig = sk.sign(data).unwrap();

    assert!(pk.verify(data, &sig).unwrap());
}

#[test]
fn test_encrypt_decrypt() {
    let key = cli::process_gen_pass(32, true, true, true, true).unwrap();
    assert_eq!(key.len(), 32);

    let data = "hello";
    let ciphertext = process_text_encrypt(data, &key).unwrap();
    let decrypted = process_text_decrypt(&ciphertext, &key).unwrap();

    assert_eq!(data, decrypted);
}

#[test]
fn blake3_sign_then_verify_and_flipped_sig_rejected() {
    let sig = process_text_sign(b"hello", KEY32, TextSignFormat::Blake3).unwrap();
    assert_eq!(
        process_text_verify(b"hello", KEY32, TextSignFormat::Blake3, &sig),
        Ok(true)
    );

    let mut raw = URL_SAFE_NO_PAD.decode(&sig).unwrap();
    raw[0] ^= 1;
    let flipped = URL_SAFE_NO_PAD.encode(&raw);
    assert_eq!(
        process_text_verify(b"hello", KEY32, TextSignFormat::Blake3, &flipped),
        Ok(false)
    );
}

#[test]
fn blake3_tampered_message_or_other_key_rejected() {
    let sig = process_text_sign(b"hello", KEY32, TextSignFormat::Blake3).unwrap();
    assert_eq!(
        process_text_verify(b"hellp", KEY32, TextSignFormat::Blake3, &sig),
        Ok(false)
    );
    let other_key = b"fedcba9876543210fedcba9876543210";
    assert_eq!(
        process_text_verify(b"hello", other_key, TextSignFormat::Blake3, &sig),
        Ok(false)
    );
}

#[test]
fn ed25519_generated_pair_signs_and_verifies() {
    let blocks = process_text_generate(TextSignFormat::Ed25519).unwrap();
    assert_eq!(blocks.len(), 2);
    assert_eq!(blocks[0].len(), 32);
    assert_eq!(blocks[1].len(), 32);

    let sig = process_text_sign(b"hello", &blocks[0], TextSignFormat::Ed25519).unwrap();
    assert_eq!(
        process_text_verify(b"hello", &blocks[1], TextSignFormat::Ed25519, &sig),
        Ok(true)
    );

    let mut raw = URL_SAFE_NO_PAD.decode(&sig).unwrap();
    raw[5] ^= 0x40;
    let flipped = URL_SAFE_NO_PAD.encode(&raw);
    assert_eq!(
        process_text_verify(b"hello", &blocks[1], TextSignFormat::Ed25519, &flipped),
        Ok(false)
    );
    assert_eq!(
        process_text_verify(b"hellp", &blocks[1], TextSignFormat::Ed25519, &sig),
        Ok(false)
    );
}

#[test]
fn blake3_generate_yields_one_32_byte_block() {
    let blocks = process_text_generate(TextSignFormat::Blake3).unwrap();
    assert_eq!(blocks.len(), 1);
    assert_eq!(blocks[0].len(), 32);
}

#[test]
fn blake3_short_key_is_invalid_key_length() {
    assert!(matches!(
        Blake3::try_new(b"too short"),
        Err(CryptoError::InvalidKeyLength)
    ));
    assert!(matches!(
        Blake3::load(&KEY32[..31]),
        Err(CryptoError::InvalidKeyLength)
    ));
    assert_eq!(
        process_text_sign(b"hello", &KEY32[..31], TextSignFormat::Blake3),
        Err(CryptoError::InvalidKeyLength)
    );
}

#[test]
fn blake3_long_key_uses_first_32_bytes() {
    let long_key = b"0123456789abcdef0123456789abcdefEXTRA";
    let sig_long = process_text_sign(b"hello", long_key, TextSignFormat::Blake3).unwrap();
    let sig_exact = process_text_sign(b"hello", KEY32, TextSignFormat::Blake3).unwrap();
    assert_eq!(sig_long, sig_exact);
}

#[test]
fn ed25519_ten_byte_signature_is_invalid_signature_length() {
    let blocks = process_text_generate(TextSignFormat::Ed25519).unwrap();
    let sig10 = URL_SAFE_NO_PAD.encode([0u8; 10]);
    assert_eq!(
        process_text_verify(b"hello", &blocks[1], TextSignFormat::Ed25519, &sig10),
        Err(CryptoError::InvalidSignatureLength)
    );
}

#[test]
fn ed25519_wrong_key_sizes_and_encodings() {
    assert!(matches!(
        Ed25519Signer::try_new(&KEY32[..31]),
        Err(CryptoError::InvalidKeyLength)
    ));
    assert!(matches!(
        Ed25519Verifier::try_new(&KEY32[..31]),
        Err(CryptoError::InvalidKeyLength)
    ));
    // y = 2 does not decompress to a curve point
    let mut bad_point = [0u8; 32];
    bad_point[0] = 2;
    assert!(matches!(
        Ed25519Verifier::try_new(&bad_point),
        Err(CryptoError::InvalidKeyEncoding)
    ));
    let sig = URL_SAFE_NO_PAD.encode([0u8; 64]);
    assert_eq!(
        process_text_verify(b"hello", &bad_point, TextSignFormat::Ed25519, &sig),
        Err(CryptoError::InvalidKeyEncoding)
    );
}

#[test]
fn malformed_base64_signature_is_encoding_error() {
    assert_eq!(
        process_text_verify(b"hello", KEY32, TextSignFormat::Blake3, "!!!"),
        Err(CryptoError::EncodingError)
    );
    // padding is refused by the unpadded transport alphabet
    assert_eq!(
        process_text_verify(b"hello", KEY32, TextSignFormat::Blake3, "aGVsbG8="),
        Err(CryptoError::EncodingError)
    );
}

#[test]
fn blake3_signature_matches_keyed_hash() {
    let sig = process_text_sign(b"hello", KEY32, TextSignFormat::Blake3).unwrap();
    let mut key = [0u8; 32];
    key.copy_from_slice(KEY32);
    let expected = URL_SAFE_NO_PAD.encode(blake3::keyed_hash(&key, b"hello").as_bytes());
    assert_eq!(sig, expected);
}

#[test]
fn ed25519_signature_matches_dalek() {
    let blocks = process_text_generate(TextSignFormat::Ed25519).unwrap();
    let sig = process_text_sign(b"hello", &blocks[0], TextSignFormat::Ed25519).unwrap();

    let mut seed = [0u8; 32];
    seed.copy_from_slice(&blocks[0]);
    let sk = ed25519_dalek::SigningKey::from_bytes(&seed);
    assert_eq!(sk.verifying_key().to_bytes().as_slice(), &blocks[1][..]);
    let expected = URL_SAFE_NO_PAD.encode(sk.sign(b"hello").to_bytes());
    assert_eq!(sig, expected);
}

#[test]
fn encrypt_hello_with_all_a_passphrase_round_trips() {
    let key = "a".repeat(32);
    let ciphertext = process_text_encrypt("hello", &key).unwrap();
    assert_eq!(process_text_decrypt(&ciphertext, &key).unwrap(), "hello");
}

#[test]
fn encrypt_matches_chacha20poly1305_with_zero_nonce() {
    let key = "a".repeat(32);
    let ciphertext = process_text_encrypt("hello", &key).unwrap();

    let cipher = chacha20poly1305::ChaCha20Poly1305::new(
        chacha20poly1305::Key::from_slice(key.as_bytes()),
    );
    let nonce = [0u8; 12];
    let expected = STANDARD.encode(cipher.encrypt(&nonce.into(), b"hello".as_ref()).unwrap());
    assert_eq!(ciphertext, expected);
}

#[test]
fn decrypt_with_other_key_is_authentication_error() {
    let key_a = "a".repeat(32);
    let key_b = "b".repeat(32);
    let ciphertext = process_text_encrypt("hello", &key_a).unwrap();
    assert_eq!(
        process_text_decrypt(&ciphertext, &key_b),
        Err(CryptoError::AuthenticationError)
    );
}

#[test]
fn tampered_ciphertext_is_authentication_error() {
    let key = "a".repeat(32);
    let ciphertext = process_text_encrypt("hello", &key).unwrap();
    let mut raw = STANDARD.decode(&ciphertext).unwrap();
    raw[0] ^= 1;
    let tampered = STANDARD.encode(&raw);
    assert_eq!(
        process_text_decrypt(&tampered, &key),
        Err(CryptoError::AuthenticationError)
    );
}

#[test]
fn short_passphrase_is_invalid_key_length() {
    assert_eq!(
        process_text_encrypt("hello", "short"),
        Err(CryptoError::InvalidKeyLength)
    );
    assert_eq!(
        process_text_decrypt("aGVsbG8=", "short"),
        Err(CryptoError::InvalidKeyLength)
    );
}

#[test]
fn decrypt_of_malformed_base64_is_encoding_error() {
    let key = "a".repeat(32);
    assert_eq!(
        process_text_decrypt("not base64!!!", &key),
        Err(CryptoError::EncodingError)
    );
}

#[test]
fn encryption_trims_plaintext_whitespace() {
    let key = "a".repeat(32);
    let ct_padded = process_text_encrypt("  hello\n", &key).unwrap();
    let ct_plain = process_text_encrypt("hello", &key).unwrap();
    assert_eq!(ct_padded, ct_plain);
    assert_eq!(process_text_decrypt(&ct_padded, &key).unwrap(), "hello");
}

#[test]
fn passphrase_longer_than_32_bytes_uses_first_32() {
    let key_long = format!("{}tail", "a".repeat(32));
    let key_exact = "a".repeat(32);
    let ciphertext = process_text_encrypt("hello", &key_long).unwrap();
    assert_eq!(process_text_decrypt(&ciphertext, &key_exact).unwrap(), "hello");
}
