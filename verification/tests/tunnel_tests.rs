use port_forward::crypto::aes_gcm::{AesGcmCrypto, CryptoError};
use port_forward::crypto::auth::{sha256_hash, AuthManager};
use port_forward::forward::remote2local::Remote2LocalForwarder;
use port_forward::config::schema::Remote2LocalRule;
use port_forward::protocol::frame::FrameType;
use port_forward::tunnel::client::{check_connected, check_not_connected, client_crypto, data_frame, TunnelError};
use port_forward::tunnel::server::{authenticate_client, ServerError};
use port_forward::tunnel::session::{ChannelInfo, ConnectionInfo, TunnelState};

#[test]
fn state_codes() {
    let all = [
        TunnelState::Disconnected,
        TunnelState::Connecting,
        TunnelState::Authenticating,
        TunnelState::Connected,
        TunnelState::Reconnecting,
        TunnelState::Error,
    ];
    for (i, s) in all.iter().enumerate() {
        assert_eq!(s.to_code(), i as u8);
        assert_eq!(TunnelState::from_client_code(i as u8), *s);
    }
    assert_eq!(TunnelState::from_client_code(200), TunnelState::Error);
    assert_eq!(TunnelState::from_server_code(4), TunnelState::Error);
    assert_eq!(TunnelState::from_server_code(3), TunnelState::Connected);
    assert_eq!(TunnelState::Reconnecting.to_string(), "Reconnecting");
    assert_eq!(TunnelState::Authenticating.to_string(), "Authenticating");
}

#[test]
fn connection_infos() {
    let c = ConnectionInfo::connecting("s1");
    assert_eq!((c.server_id.as_str(), c.state), ("s1", TunnelState::Connecting));
    assert!(ConnectionInfo::connected("s1").connected_at.is_some());
    assert!(ConnectionInfo::disconnected("s1").connected_at.is_none());
    let e = ConnectionInfo::error("s1", "bad");
    assert_eq!((e.state, e.error_message.as_deref()), (TunnelState::Error, Some("bad")));
    let ch = ChannelInfo::new(3, "1.2.3.4".to_string(), 80);
    assert_eq!((ch.channel_id, ch.bytes_sent, ch.bytes_received), (3, 0, 0));
}

#[test]
fn client_decisions() {
    assert!(client_crypto("").is_none());
    let c = client_crypto("pw").unwrap();
    let f = data_frame(&Some(c), 5, b"data").unwrap();
    assert_eq!((f.frame_type, f.channel_id, f.payload.len()), (FrameType::Data, 5, 12 + 4 + 16));
    let same = AesGcmCrypto::new("pw").unwrap();
    assert_eq!(same.decrypt(&f.payload).unwrap(), b"data".to_vec());
    let plain = data_frame(&None, 6, b"raw").unwrap();
    assert_eq!(plain.payload, b"raw".to_vec());
    assert_eq!(check_connected(TunnelState::Connecting), Err(TunnelError::NotConnected));
    assert_eq!(check_connected(TunnelState::Connected), Ok(()));
    assert_eq!(check_not_connected(TunnelState::Connected), Err(TunnelError::AlreadyConnected));
    assert_eq!(TunnelError::from(CryptoError::EncryptionFailed), TunnelError::CryptoError(CryptoError::EncryptionFailed));
}

#[test]
fn server_authentication() {
    let server = AuthManager::new("pw");
    let client = AuthManager::new("pw");
    let nonce = server.generate_nonce();
    let response = client.generate_response(&nonce).unwrap();
    let crypto = authenticate_client(&server, &nonce, &response).unwrap().unwrap();
    let mut input = sha256_hash(b"pw");
    input.extend_from_slice(&nonce);
    let expected = AesGcmCrypto::from_key(&sha256_hash(&input)).unwrap();
    let sealed = crypto.encrypt(b"hello").unwrap();
    assert_eq!(expected.decrypt(&sealed).unwrap(), b"hello".to_vec());

    let intruder = AuthManager::new("guess");
    let bad = intruder.generate_response(&nonce).unwrap();
    assert!(matches!(authenticate_client(&server, &nonce, &bad), Err(ServerError::AuthFailed)));
}

#[test]
fn remote_to_local_forwarder_keeps_rule() {
    let f = Remote2LocalForwarder::new(Remote2LocalRule::new(9000, "127.0.0.1".to_string(), 22));
    assert_eq!(f.get_rule().remote_port, 9000);
    assert_eq!(f.get_rule().local_port, 22);
}
