use vstd::prelude::*;
use ::aes_gcm::aead::{Aead, KeyInit};

use super::auth::{random_bytes, sha256_bytes, sha256_digest};
use vstd::string::StringSliceAdditionalSpecFns;

verus! {

#[derive(Debug, Clone, Copy, PartialEq, Eq, Structural)]
pub enum CryptoError {
    EncryptionFailed,
    DecryptionFailed,
    InvalidDataLength,
    InvalidKeyLength,
}

/// Longest plaintext that AES-GCM accepts: 2^36 bytes.
pub open spec fn aes_gcm_max_plaintext() -> nat {
    0x10_0000_0000
}

/// The AES-256-GCM ciphertext (with its 16-byte tag appended) of `plaintext` under
/// `key` and `nonce`, with no associated data, as `aes_gcm::Aes256Gcm` computes it.
pub uninterp spec fn aes256gcm_seal(key: Seq<u8>, nonce: Seq<u8>, plaintext: Seq<u8>) -> Seq<u8>;

/// What `aes_gcm::Aes256Gcm` decrypts `ciphertext` (tag appended) to under `key` and
/// `nonce`, with no associated data: `None` where the tag does not authenticate.
pub uninterp spec fn aes256gcm_open(key: Seq<u8>, nonce: Seq<u8>, ciphertext: Seq<u8>) -> Option<Seq<u8>>;

/// Calls `Aes256Gcm::new(key)` and `Aead::encrypt(nonce, plaintext)`.
/// Trusted: it fails exactly when the plaintext is longer than 2^36 bytes (the bound
/// that `encrypt_in_place_detached` checks); otherwise the result is
/// `aes256gcm_seal(key, nonce, plaintext)`, 16 bytes (the tag) longer than the plaintext.
#[verifier::external_body]
fn aes256gcm_encrypt(key: &[u8], nonce: &[u8], plaintext: &[u8]) -> (r: Result<Vec<u8>, CryptoError>)
    requires
        key@.len() == 32,
        nonce@.len() == 12,
    ensures
        r is Ok <==> plaintext@.len() <= aes_gcm_max_plaintext(),
        r matches Ok(c) ==> c@ == aes256gcm_seal(key@, nonce@, plaintext@) && c@.len()
            == plaintext@.len() + 16,
        r matches Err(e) ==> e == CryptoError::EncryptionFailed,
{
    let cipher = ::aes_gcm::Aes256Gcm::new(::aes_gcm::Key::<::aes_gcm::Aes256Gcm>::from_slice(key));
    match cipher.encrypt(::aes_gcm::Nonce::from_slice(nonce), plaintext) {
        Ok(c) => Ok(c),
        Err(_) => Err(CryptoError::EncryptionFailed),
    }
}

/// Calls `Aes256Gcm::new(key)` and `Aead::decrypt(nonce, ciphertext)`.
/// Trusted: the result is `aes256gcm_open(key, nonce, ciphertext)`, and decrypting
/// what `encrypt` produced under the same key and nonce gives the plaintext back
/// (counter-mode keystream and tag are recomputed from the same inputs).
#[verifier::external_body]
fn aes256gcm_decrypt(key: &[u8], nonce: &[u8], ciphertext: &[u8]) -> (r: Result<Vec<u8>, CryptoError>)
    requires
        key@.len() == 32,
        nonce@.len() == 12,
    ensures
        r matches Ok(p) ==> aes256gcm_open(key@, nonce@, ciphertext@) == Some(p@),
        r matches Err(e) ==> aes256gcm_open(key@, nonce@, ciphertext@) is None && e
            == CryptoError::DecryptionFailed,
        forall|p: Seq<u8>|
            p.len() <= aes_gcm_max_plaintext() && #[trigger] aes256gcm_seal(key@, nonce@, p)
                == ciphertext@ ==> r is Ok && r->Ok_0@ == p,
{
    let cipher = ::aes_gcm::Aes256Gcm::new(::aes_gcm::Key::<::aes_gcm::Aes256Gcm>::from_slice(key));
    match cipher.decrypt(::aes_gcm::Nonce::from_slice(nonce), ciphertext) {
        Ok(p) => Ok(p),
        Err(_) => Err(CryptoError::DecryptionFailed),
    }
}

/// What `AesGcmCrypto::decrypt` returns for `data` under `key`.
pub open spec fn spec_decrypt(key: Seq<u8>, data: Seq<u8>) -> Result<Seq<u8>, CryptoError> {
    if data.len() < 28 {
        Err(CryptoError::InvalidDataLength)
    } else {
        match aes256gcm_open(key, data.subrange(0, 12), data.subrange(12, data.len() as int)) {
            Some(p) => Ok(p),
            None => Err(CryptoError::DecryptionFailed),
        }
    }
}

/// AES-256-GCM encryption/decryption under a 32-byte key
pub struct AesGcmCrypto {
    key: Vec<u8>,
}

impl View for AesGcmCrypto {
    type V = Seq<u8>;

    /// The 32-byte key
    closed spec fn view(&self) -> Seq<u8> {
        self.key@
    }
}

impl Clone for AesGcmCrypto {
    /// A cipher with the same key
    fn clone(&self) -> (c: Self)
        ensures
            c@ == self@,
    {
        proof {
            use_type_invariant(self);
        }
        AesGcmCrypto { key: self.key.clone() }
    }
}

impl AesGcmCrypto {
    #[verifier::type_invariant]
    spec fn key_is_256_bits(self) -> bool {
        self.key@.len() == 32
    }

    /// Create a new AES-GCM crypto instance from a password:
    /// the key is the SHA-256 digest of the password
    pub fn new(password: &str) -> (r: Result<Self, CryptoError>)
        ensures
            r matches Ok(c) && c@ == sha256_digest(password.spec_bytes()),
    {
        let key = sha256_bytes(password.as_bytes());
        Ok(AesGcmCrypto { key })
    }

    /// Create from raw key bytes (must be 32 bytes for AES-256)
    pub fn from_key(key: &[u8]) -> (r: Result<Self, CryptoError>)
        ensures
            key@.len() != 32 ==> r == Err::<Self, CryptoError>(CryptoError::InvalidKeyLength),
            key@.len() == 32 ==> (r matches Ok(c) && c@ == key@),
    {
        if key.len() != 32 {
            return Err(CryptoError::InvalidKeyLength);
        }
        Ok(AesGcmCrypto { key: vstd::slice::slice_to_vec(key) })
    }

    /// Encrypt plaintext using AES-256-GCM under a fresh random nonce
    /// Returns: nonce (12 bytes) + ciphertext + tag (16 bytes)
    pub fn encrypt(&self, plaintext: &[u8]) -> (r: Result<Vec<u8>, CryptoError>)
        ensures
            r is Ok <==> plaintext@.len() <= aes_gcm_max_plaintext(),
            r matches Ok(c) ==> c@.len() == 12 + plaintext@.len() + 16 && c@.subrange(12, c@.len() as int)
                == aes256gcm_seal(self@, c@.subrange(0, 12), plaintext@),
            r matches Err(e) ==> e == CryptoError::EncryptionFailed,
    {
        let nonce = random_bytes(12);
        let r = self.encrypt_with_nonce(nonce.as_slice(), plaintext);
        proof {
            if r is Ok {
                let c = r->Ok_0;
                assert(c@.subrange(0, 12) =~= nonce@);
                assert(c@.subrange(12, c@.len() as int) =~= aes256gcm_seal(self@, nonce@, plaintext@));
            }
        }
        r
    }

    /// Encrypt plaintext using AES-256-GCM under the given 12-byte nonce
    /// Returns: nonce (12 bytes) + ciphertext + tag (16 bytes)
    pub fn encrypt_with_nonce(&self, nonce: &[u8], plaintext: &[u8]) -> (r: Result<Vec<u8>, CryptoError>)
        requires
            nonce@.len() == 12,
        ensures
            r is Ok <==> plaintext@.len() <= aes_gcm_max_plaintext(),
            r matches Ok(c) ==> c@ == nonce@ + aes256gcm_seal(self@, nonce@, plaintext@)
                && c@.len() == 12 + plaintext@.len() + 16,
            r matches Err(e) ==> e == CryptoError::EncryptionFailed,
    {
        proof {
            use_type_invariant(self);
        }
        let ciphertext = match aes256gcm_encrypt(self.key.as_slice(), nonce, plaintext) {
            Ok(c) => c,
            Err(e) => {
                return Err(e);
            },
        };
        let mut result = vstd::slice::slice_to_vec(nonce);
        let mut ct = ciphertext;
        result.append(&mut ct);
        Ok(result)
    }

    /// Decrypt data encrypted with AES-256-GCM
    /// Input format: nonce (12 bytes) + ciphertext + tag.  Data that
    /// `encrypt_with_nonce` produced under the same key decrypts to its plaintext.
    pub fn decrypt(&self, data: &[u8]) -> (r: Result<Vec<u8>, CryptoError>)
        ensures
            match r {
                Ok(p) => spec_decrypt(self@, data@) == Ok::<Seq<u8>, CryptoError>(p@),
                Err(e) => spec_decrypt(self@, data@) == Err::<Seq<u8>, CryptoError>(e),
            },
            forall|nonce: Seq<u8>, p: Seq<u8>|
                nonce.len() == 12 && p.len() <= aes_gcm_max_plaintext() && data@.len() >= 28
                    && data@ == nonce + #[trigger] aes256gcm_seal(self@, nonce, p) ==> (r matches Ok(
                    q,
                ) && q@ == p),
    {
        proof {
            use_type_invariant(self);
        }
        if data.len() < 12 + 16 {
            return Err(CryptoError::InvalidDataLength);
        }
        let nonce = vstd::slice::slice_subrange(data, 0, 12);
        let ciphertext = vstd::slice::slice_subrange(data, 12, data.len());
        let r = aes256gcm_decrypt(self.key.as_slice(), nonce, ciphertext);
        proof {
            assert forall|n: Seq<u8>, p: Seq<u8>|
                n.len() == 12 && p.len() <= aes_gcm_max_plaintext() && data@ == n
                    + #[trigger] aes256gcm_seal(self@, n, p) implies (r matches Ok(q) && q@ == p) by {
                assert(n =~= data@.subrange(0, 12));
                assert(aes256gcm_seal(self@, n, p) =~= data@.subrange(12, data@.len() as int));
            }
        }
        r
    }
}

} // verus!
