use steam_box::crypto::{decrypt, derive_key, encrypt, encrypt_with_nonce, CryptoError};
use steam_box::session::{open_session, seal_session};

#[test]
fn test_round_trip() {
    let machine_id = "test-machine-id-12345";
    let plaintext = b"Hello, Steam Box! This is a session token.";

    let encrypted = encrypt(plaintext, machine_id).expect("Encryption should succeed");
    assert_ne!(&encrypted[..], &plaintext[..]);

    let decrypted = decrypt(&encrypted, machine_id).expect("Decryption should succeed");
    assert_eq!(&decrypted, plaintext);
}

#[test]
fn test_wrong_key_rejection() {
    let machine_id_1 = "machine-a";
    let machine_id_2 = "machine-b";
    let plaintext = b"secret data";

    let encrypted = encrypt(plaintext, machine_id_1).expect("Encryption should succeed");
    let result = decrypt(&encrypted, machine_id_2);
    assert!(result.is_err(), "Decryption with wrong key should fail");
}

#[test]
fn test_too_short_data() {
    let result = decrypt(&[0u8; 10], "machine");
    assert!(result.is_err());
}

#[test]
fn too_short_data_is_invalid_data() {
    let result = decrypt(&[0u8; 27], "machine");
    assert_eq!(
        result,
        Err(CryptoError::InvalidData("Data too short to contain nonce and tag".to_string()))
    );
}

#[test]
fn tampered_data_fails_authentication() {
    let mut encrypted = encrypt(b"payload", "m").unwrap();
    let last = encrypted.len() - 1;
    encrypted[last] ^= 1;
    assert_eq!(
        decrypt(&encrypted, "m"),
        Err(CryptoError::DecryptionFailed("aead::Error".to_string()))
    );
}

#[test]
fn encrypted_length_adds_nonce_and_tag() {
    let encrypted = encrypt(b"abc", "m").unwrap();
    assert_eq!(encrypted.len(), 3 + 12 + 16);
    let empty = encrypt(b"", "m").unwrap();
    assert_eq!(empty.len(), 28);
    assert_eq!(decrypt(&empty, "m").unwrap(), Vec::<u8>::new());
}

#[test]
fn output_starts_with_the_nonce() {
    let nonce = [7u8; 12];
    let out = encrypt_with_nonce(b"hello", "machine", &nonce).unwrap();
    assert_eq!(&out[..12], &nonce[..]);
    assert_ne!(&out[12..17], b"hello");
    assert_eq!(decrypt(&out, "machine").unwrap(), b"hello".to_vec());
    let again = encrypt_with_nonce(b"hello", "machine", &nonce).unwrap();
    assert_eq!(out, again);
}

#[test]
fn fresh_nonces_differ() {
    let a = encrypt(b"same", "m").unwrap();
    let b = encrypt(b"same", "m").unwrap();
    assert_ne!(a, b);
}

#[test]
fn key_is_sha256_of_machine_id() {
    let key = derive_key("abc");
    let expected: [u8; 32] = [
        0xba, 0x78, 0x16, 0xbf, 0x8f, 0x01, 0xcf, 0xea, 0x41, 0x41, 0x40, 0xde, 0x5d, 0xae, 0x22,
        0x23, 0xb0, 0x03, 0x61, 0xa3, 0x96, 0x17, 0x7a, 0x9c, 0xb4, 0x10, 0xff, 0x61, 0xf2, 0x00,
        0x15, 0xad,
    ];
    assert_eq!(key, expected);
}

#[test]
fn crypto_error_messages() {
    assert_eq!(CryptoError::EncryptionFailed("x".to_string()).message(), "Encryption failed: x");
    assert_eq!(CryptoError::DecryptionFailed("y".to_string()).message(), "Decryption failed: y");
    assert_eq!(CryptoError::InvalidData("z".to_string()).message(), "Invalid data: z");
}

#[test]
fn session_seal_round_trip() {
    let json = r#"{"cdk":"ABC","expiry":"2026-12-31","activated_at":"now"}"#;
    let sealed = seal_session(json, "machine-1").unwrap();
    assert_eq!(open_session(&sealed, "machine-1").unwrap(), json);
    assert_eq!(
        open_session(&sealed, "machine-2"),
        Err("Decryption failed: aead::Error".to_string())
    );
    assert_eq!(
        open_session(&[1, 2, 3], "machine-1"),
        Err("Invalid data: Data too short to contain nonce and tag".to_string())
    );
}

#[test]
fn session_open_reports_bad_utf8() {
    let sealed = steam_box::crypto::encrypt(&[0xff, 0xfe], "m").unwrap();
    assert_eq!(
        open_session(&sealed, "m"),
        Err("invalid utf-8 sequence of 1 bytes from index 0".to_string())
    );
}

#[test]
fn decrypted_is_28_bytes_shorter() {
    let data = encrypt(&[9u8; 100], "m").unwrap();
    let plain = decrypt(&data, "m").unwrap();
    assert_eq!(plain.len() + 28, data.len());
}
