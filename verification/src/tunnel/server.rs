use vstd::prelude::*;

use crate::crypto::aes_gcm::AesGcmCrypto;
use crate::crypto::auth::{sha256_digest, spec_response_valid, AuthManager};

verus! {

#[derive(Debug, PartialEq, Eq)]
pub enum ServerError {
    BindFailed(String),
    AcceptFailed(String),
    AuthFailed,
    ChannelError(String),
}

/// The server's decision on a client's answer to the challenge `nonce`: refused unless
/// the answer is the HMAC of the nonce under the shared key; when accepted, the session
/// cipher is keyed by the SHA-256 digest of the shared key followed by the nonce
pub fn authenticate_client(auth: &AuthManager, nonce: &[u8], response: &[u8]) -> (r: Result<Option<AesGcmCrypto>, ServerError>)
    ensures
        !spec_response_valid(auth@, nonce@, response@) ==> r == Err::<Option<AesGcmCrypto>, ServerError>(
            ServerError::AuthFailed,
        ),
        spec_response_valid(auth@, nonce@, response@) ==> (r matches Ok(Some(c)) && c@
            == sha256_digest(auth@ + nonce@)),
{
    if !auth.verify_response(nonce, response) {
        return Err(ServerError::AuthFailed);
    }
    let session_key = auth.generate_session_key(nonce);
    match AesGcmCrypto::from_key(session_key.as_slice()) {
        Ok(c) => Ok(Some(c)),
        Err(_) => Ok(None),
    }
}

} // verus!
