pub mod aes_gcm;
pub mod auth;

pub use aes_gcm::{AesGcmCrypto, CryptoError};
pub use auth::{sha256_hash, sha256_hex, AuthChallenge, AuthError, AuthManager};
