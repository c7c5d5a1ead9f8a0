use port_forward::crypto::aes_gcm::{AesGcmCrypto, CryptoError};
use port_forward::crypto::auth::{sha256_hash, sha256_hex, AuthChallenge, AuthManager};
use sha2::Digest;

#[test]
fn test_encrypt_decrypt() {
    let crypto = AesGcmCrypto::new("test_password").unwrap();
    let plaintext = b"Hello, World!";
    let encrypted = crypto.encrypt(plaintext).unwrap();
    let decrypted = crypto.decrypt(&encrypted).unwrap();
    assert_eq!(plaintext.to_vec(), decrypted);
}

#[test]
fn test_different_nonces() {
    let crypto = AesGcmCrypto::new("test_password").unwrap();
    let plaintext = b"Hello, World!";
    let encrypted1 = crypto.encrypt(plaintext).unwrap();
    let encrypted2 = crypto.encrypt(plaintext).unwrap();
    // Same plaintext should produce different ciphertext due to random nonce
    assert_ne!(encrypted1, encrypted2);
}

#[test]
fn test_auth_flow() {
    let server_auth = AuthManager::new("server_password");
    let client_auth = AuthManager::new("server_password");

    // Server generates challenge
    let nonce = server_auth.generate_nonce();

    // Client generates response
    let response = client_auth.generate_response(&nonce).unwrap();

    // Server verifies response
    assert!(server_auth.verify_response(&nonce, &response));
}

#[test]
fn test_wrong_password() {
    let server_auth = AuthManager::new("correct_password");
    let client_auth = AuthManager::new("wrong_password");

    let nonce = server_auth.generate_nonce();
    let response = client_auth.generate_response(&nonce).unwrap();

    // Should fail with wrong password
    assert!(!server_auth.verify_response(&nonce, &response));
}

#[test]
fn encryption_layout_and_decrypt_errors() {
    let crypto = AesGcmCrypto::from_key(&[7u8; 32]).unwrap();
    let nonce = [1u8; 12];
    let sealed = crypto.encrypt_with_nonce(&nonce, b"abc").unwrap();
    assert_eq!(sealed.len(), 12 + 3 + 16);
    assert_eq!(&sealed[..12], &nonce);
    assert_ne!(&sealed[12..15], b"abc");
    assert_eq!(crypto.decrypt(&sealed).unwrap(), b"abc".to_vec());

    let mut tampered = sealed.clone();
    tampered[13] ^= 1;
    assert_eq!(crypto.decrypt(&tampered).unwrap_err(), CryptoError::DecryptionFailed);
    assert_eq!(crypto.decrypt(&sealed[..27]).unwrap_err(), CryptoError::InvalidDataLength);
    let other = AesGcmCrypto::from_key(&[8u8; 32]).unwrap();
    assert_eq!(other.decrypt(&sealed).unwrap_err(), CryptoError::DecryptionFailed);
    assert!(matches!(AesGcmCrypto::from_key(&[0u8; 31]), Err(CryptoError::InvalidKeyLength)));
}

#[test]
fn password_key_is_sha256_of_password() {
    let by_password = AesGcmCrypto::new("pw").unwrap();
    let digest = sha2::Sha256::digest(b"pw");
    let by_key = AesGcmCrypto::from_key(&digest).unwrap();
    let sealed = by_password.encrypt(b"x").unwrap();
    assert_eq!(by_key.decrypt(&sealed).unwrap(), b"x".to_vec());
}

#[test]
fn hashes_and_session_keys() {
    assert_eq!(
        sha256_hex(b"abc"),
        "ba7816bf8f01cfea414140de5dae2223b00361a396177a9cb410ff61f20015ad"
    );
    assert_eq!(sha256_hash(b"abc").len(), 32);
    let auth = AuthManager::new("pw");
    let key = sha256_hash(b"pw");
    let mut input = key.clone();
    input.extend_from_slice(b"salt");
    assert_eq!(auth.generate_session_key(b"salt"), sha256_hash(&input));
}

#[test]
fn verify_rejects_other_lengths_and_bytes() {
    let auth = AuthManager::new("pw");
    let nonce = vec![1u8; 32];
    let response = auth.generate_response(&nonce).unwrap();
    assert_eq!(response.len(), 32);
    assert!(!auth.verify_response(&nonce, &response[..31]));
    assert!(!auth.verify_response(&nonce, &[]));
    let mut flipped = response.clone();
    flipped[31] ^= 0x80;
    assert!(!auth.verify_response(&nonce, &flipped));
    assert!(!auth.verify_response(&[2u8; 32], &response));
}

#[test]
fn challenges() {
    assert_eq!(AuthChallenge::new().nonce.len(), 32);
    assert_eq!(AuthChallenge::default().to_bytes().len(), 32);
    let c = AuthChallenge::from_bytes(vec![1, 2]);
    assert_eq!(c.to_bytes(), &[1, 2]);
    assert_eq!(AuthManager::new("x").generate_nonce().len(), 32);
}
