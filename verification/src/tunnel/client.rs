use vstd::prelude::*;
use vstd::string::StringSliceAdditionalSpecFns;

use crate::crypto::aes_gcm::{aes256gcm_seal, aes_gcm_max_plaintext, AesGcmCrypto, CryptoError};
use crate::crypto::auth::sha256_digest;
use crate::protocol::frame::{Frame, FrameType};
use super::session::TunnelState;

verus! {

#[derive(Debug, PartialEq, Eq)]
pub enum TunnelError {
    ConnectionFailed(String),
    AuthFailed,
    ChannelError(String),
    ProtocolError(String),
    AlreadyConnected,
    NotConnected,
    CryptoError(CryptoError),
}

impl From<CryptoError> for TunnelError {
    fn from(e: CryptoError) -> (r: Self) {
        TunnelError::CryptoError(e)
    }
}

impl vstd::std_specs::convert::FromSpecImpl<CryptoError> for TunnelError {
    open spec fn obeys_from_spec() -> bool {
        true
    }

    open spec fn from_spec(e: CryptoError) -> Self {
        TunnelError::CryptoError(e)
    }
}

/// The cipher a tunnel client encrypts data with: none for an empty password, else the
/// AES-256-GCM cipher keyed by the SHA-256 digest of the password
pub fn client_crypto(password: &str) -> (c: Option<AesGcmCrypto>)
    ensures
        password@.len() == 0 ==> c is None,
        password@.len() != 0 ==> (c matches Some(k) && k@ == sha256_digest(password.spec_bytes())),
{
    if password.is_empty() {
        None
    } else {
        match AesGcmCrypto::new(password) {
            Ok(c) => Some(c),
            Err(_) => None,
        }
    }
}

/// Connecting is refused while the client is connected
pub fn check_not_connected(state: TunnelState) -> (r: Result<(), TunnelError>)
    ensures
        state == TunnelState::Connected ==> r == Err::<(), TunnelError>(TunnelError::AlreadyConnected),
        state != TunnelState::Connected ==> r is Ok,
{
    if state == TunnelState::Connected {
        Err(TunnelError::AlreadyConnected)
    } else {
        Ok(())
    }
}

/// Opening channels and sending data need a connected client
pub fn check_connected(state: TunnelState) -> (r: Result<(), TunnelError>)
    ensures
        state == TunnelState::Connected ==> r is Ok,
        state != TunnelState::Connected ==> r == Err::<(), TunnelError>(TunnelError::NotConnected),
{
    if state == TunnelState::Connected {
        Ok(())
    } else {
        Err(TunnelError::NotConnected)
    }
}

/// The data frame that carries `data` on a channel: encrypted under a fresh nonce when
/// the client has a cipher (nonce, ciphertext and tag), the bytes themselves otherwise
pub fn data_frame(crypto: &Option<AesGcmCrypto>, channel_id: u32, data: &[u8]) -> (r: Result<Frame, TunnelError>)
    ensures
        crypto is None ==> (r matches Ok(f) && f@.frame_type == FrameType::Data && f@.channel_id
            == channel_id && f@.payload == data@),
        crypto matches Some(c) ==> {
            &&& r is Ok <==> data@.len() <= aes_gcm_max_plaintext()
            &&& r matches Ok(f) ==> f@.frame_type == FrameType::Data && f@.channel_id == channel_id
                && f@.payload.len() == 12 + data@.len() + 16 && f@.payload.subrange(
                12,
                f@.payload.len() as int,
            ) == aes256gcm_seal(c@, f@.payload.subrange(0, 12), data@)
            &&& r matches Err(e) ==> e == TunnelError::CryptoError(CryptoError::EncryptionFailed)
        },
{
    let payload = match crypto {
        Some(c) => match c.encrypt(data) {
            Ok(p) => p,
            Err(e) => {
                return Err(TunnelError::from(e));
            },
        },
        None => vstd::slice::slice_to_vec(data),
    };
    Ok(Frame::data(channel_id, payload))
}

} // verus!
