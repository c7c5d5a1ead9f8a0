use vstd::prelude::*;
use vstd::string::StringSliceAdditionalSpecFns;
use hmac::Mac;
use rand::RngCore;
use sha2::Digest;
use crate::text::hex_text;

verus! {

/// Errors of the challenge-response authentication.
#[derive(Debug, Clone, Copy, PartialEq, Eq, Structural)]
pub enum AuthError {
    InvalidMac,
    InvalidKeyLength,
}

/// The SHA-256 digest of a byte sequence, as `sha2::Sha256` computes it.
pub uninterp spec fn sha256_digest(data: Seq<u8>) -> Seq<u8>;

/// The HMAC-SHA256 tag of `msg` under `key`, as `hmac::Hmac<sha2::Sha256>` computes it.
pub uninterp spec fn hmac_sha256_tag(key: Seq<u8>, msg: Seq<u8>) -> Seq<u8>;

/// Calls `sha2::Sha256` (`new`, `update`, `finalize`) on `data`.
/// Trusted: the result is `sha256_digest(data)`, and it is 32 bytes long (the output
/// size of SHA-256).
#[verifier::external_body]
pub(crate) fn sha256_bytes(data: &[u8]) -> (digest: Vec<u8>)
    ensures
        digest@ == sha256_digest(data@),
        digest@.len() == 32,
{
    let mut hasher = sha2::Sha256::new();
    hasher.update(data);
    hasher.finalize().to_vec()
}

/// Calls `hmac::Hmac::<sha2::Sha256>::new_from_slice(key)`, `update(msg)`, `finalize`.
/// Trusted: `new_from_slice` accepts keys of every length (longer keys are hashed), so
/// the result is always `Ok` with the 32-byte tag `hmac_sha256_tag(key, msg)`.
#[verifier::external_body]
fn hmac_sha256(key: &[u8], msg: &[u8]) -> (r: Result<Vec<u8>, AuthError>)
    ensures
        r is Ok,
        r->Ok_0@ == hmac_sha256_tag(key@, msg@),
        r->Ok_0@.len() == 32,
{
    match <hmac::Hmac<sha2::Sha256> as Mac>::new_from_slice(key) {
        Ok(mut mac) => {
            mac.update(msg);
            Ok(mac.finalize().into_bytes().to_vec())
        },
        Err(_) => Err(AuthError::InvalidKeyLength),
    }
}

/// Fills `n` bytes from `rand::thread_rng()` with `fill_bytes`.
/// Trusted: the result has `n` bytes; nothing is stated of their values.
#[verifier::external_body]
pub(crate) fn random_bytes(n: usize) -> (bytes: Vec<u8>)
    ensures
        bytes@.len() == n,
{
    let mut bytes = vec![0u8; n];
    rand::thread_rng().fill_bytes(&mut bytes);
    bytes
}

/// Calls `hex::encode(data)`.
/// Trusted: the result is the lowercase hexadecimal text of `data`, two digits per
/// byte, high digit first (`hex_text`).
#[verifier::external_body]
fn hex_encode(data: &[u8]) -> (text: String)
    ensures
        text@ == hex_text(data@),
{
    hex::encode(data)
}

/// Whether `response` answers the challenge `nonce` for the shared key `key`.
pub open spec fn spec_response_valid(key: Seq<u8>, nonce: Seq<u8>, response: Seq<u8>) -> bool {
    response == hmac_sha256_tag(key, nonce)
}

/// Authentication manager using SHA-256 HMAC
pub struct AuthManager {
    server_key: Vec<u8>,
}

impl View for AuthManager {
    type V = Seq<u8>;

    /// The shared key
    closed spec fn view(&self) -> Seq<u8> {
        self.server_key@
    }
}

impl AuthManager {
    /// Create a new auth manager from a password
    /// The password is hashed with SHA-256 to derive the key
    pub fn new(password: &str) -> (m: Self)
        ensures
            m@ == sha256_digest(password.spec_bytes()),
            m@.len() == 32,
    {
        let server_key = sha256_bytes(password.as_bytes());
        AuthManager { server_key }
    }

    /// Generate a random nonce (challenge) of 32 bytes
    pub fn generate_nonce(&self) -> (nonce: Vec<u8>)
        ensures
            nonce@.len() == 32,
    {
        random_bytes(32)
    }

    /// Generate authentication response for a given nonce
    /// response = HMAC-SHA256(server_key, nonce)
    pub fn generate_response(&self, nonce: &[u8]) -> (r: Result<Vec<u8>, AuthError>)
        ensures
            r matches Ok(response) && response@ == hmac_sha256_tag(self@, nonce@),
            r matches Ok(response) && response@.len() == 32,
    {
        hmac_sha256(self.server_key.as_slice(), nonce)
    }

    /// Verify an authentication response, comparing every byte whatever the
    /// earlier bytes were
    pub fn verify_response(&self, nonce: &[u8], response: &[u8]) -> (ok: bool)
        ensures
            ok == spec_response_valid(self@, nonce@, response@),
            response@.len() != 32 ==> !ok,
    {
        let expected = match self.generate_response(nonce) {
            Ok(r) => r,
            Err(_) => {
                return false;
            },
        };
        if response.len() != expected.len() {
            return false;
        }
        let mut result: u8 = 0;
        let mut i: usize = 0;
        while i < response.len()
            invariant
                i <= response@.len(),
                response@.len() == expected@.len(),
                result == 0 <==> (forall|j: int| 0 <= j < i ==> response@[j] == expected@[j]),
            decreases response@.len() - i,
        {
            let a = response[i];
            let b = expected[i];
            let acc = result;
            result = acc | (a ^ b);
            assert(result == 0 <==> (acc == 0 && a == b)) by (bit_vector)
                requires
                    result == acc | (a ^ b),
            ;
            i = i + 1;
        }
        assert(result == 0 <==> response@ =~= expected@);
        result == 0
    }

    /// Generate a session key from the shared key and a salt:
    /// SHA-256 of the key followed by the salt
    pub fn generate_session_key(&self, salt: &[u8]) -> (k: Vec<u8>)
        ensures
            k@ == sha256_digest(self@ + salt@),
            k@.len() == 32,
    {
        let mut input = self.server_key.clone();
        let mut salt_bytes = vstd::slice::slice_to_vec(salt);
        input.append(&mut salt_bytes);
        sha256_bytes(input.as_slice())
    }
}

/// Two managers built from the same password accept each other's responses: the
/// response that one generates for a nonce is valid for the other.
pub proof fn lemma_same_password_accepts(password: Seq<u8>, nonce: Seq<u8>)
    ensures
        spec_response_valid(
            sha256_digest(password),
            nonce,
            hmac_sha256_tag(sha256_digest(password), nonce),
        ),
{
}

/// Challenge-response authentication flow
pub struct AuthChallenge {
    pub nonce: Vec<u8>,
}

impl AuthChallenge {
    /// A challenge with 32 random bytes
    pub fn new() -> (c: Self)
        ensures
            c.nonce@.len() == 32,
    {
        AuthChallenge { nonce: random_bytes(32) }
    }

    pub fn from_bytes(bytes: Vec<u8>) -> (c: Self)
        ensures
            c.nonce@ == bytes@,
    {
        AuthChallenge { nonce: bytes }
    }

    pub fn to_bytes(&self) -> (b: &[u8])
        ensures
            b@ == self.nonce@,
    {
        self.nonce.as_slice()
    }
}

impl Default for AuthChallenge {
    fn default() -> (c: Self) {
        Self::new()
    }
}

/// Utility function to compute SHA-256 hash
pub fn sha256_hash(data: &[u8]) -> (digest: Vec<u8>)
    ensures
        digest@ == sha256_digest(data@),
        digest@.len() == 32,
{
    sha256_bytes(data)
}

/// Utility function to compute SHA-256 hash and return it as lowercase hex
pub fn sha256_hex(data: &[u8]) -> (text: String)
    ensures
        text@ == hex_text(sha256_digest(data@)),
{
    let hash = sha256_hash(data);
    hex_encode(hash.as_slice())
}

} // verus!
