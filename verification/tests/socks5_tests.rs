use port_forward::cli::{
    format_ipv6, socks5_response, HandshakeError, HandshakeOutcome, HandshakeState, Socks5Handshake,
};
use port_forward::config::Socks5Config;
use port_forward::forward::socks5::{Socks5Error, Socks5Outcome, Socks5Phase, Socks5Proxy};

fn config(user: Option<&str>, pass: Option<&str>) -> Socks5Config {
    Socks5Config {
        enabled: true,
        port: 1080,
        username: user.map(|s| s.to_string()),
        password: pass.map(|s| s.to_string()),
        local_resolution: false,
    }
}

#[test]
fn no_auth_ipv4_connect() {
    let proxy = Socks5Proxy::new(config(None, None));
    let mut s = proxy.session();
    let step = s.on_read(&[5, 1, 0]);
    assert_eq!(step.reply, Some(vec![5, 0]));
    assert!(matches!(step.outcome, Socks5Outcome::Continue));
    assert_eq!(s.phase(), Socks5Phase::Request);
    let step = s.on_read(&[5, 1, 0, 1, 192, 168, 1, 20, 0x1F, 0x90]);
    assert_eq!(step.reply, Some(vec![5, 0, 0, 1, 0, 0, 0, 0, 0, 0]));
    match step.outcome {
        Socks5Outcome::Connect { target, port } => {
            assert_eq!(target, "192.168.1.20");
            assert_eq!(port, 8080);
        }
        other => panic!("unexpected {:?}", other),
    }
    assert_eq!(s.phase(), Socks5Phase::Finished);
}

#[test]
fn password_auth_and_domain_connect() {
    let proxy = Socks5Proxy::new(config(Some("bob"), Some("pw")));
    let mut s = proxy.session();
    let step = s.on_read(&[5, 2, 0, 2]);
    assert_eq!(step.reply, Some(vec![5, 2]));
    assert_eq!(s.phase(), Socks5Phase::Auth);
    let msg = [1, 3, b'b', b'o', b'b', 2, b'p', b'w'];
    assert!(s.accepts(&msg));
    let step = s.on_read(&msg);
    assert_eq!(step.reply, Some(vec![1, 0]));
    let mut req = vec![5, 1, 0, 3, 11];
    req.extend_from_slice(b"example.com");
    req.extend_from_slice(&[0x01, 0xBB]);
    let step = s.on_read(&req);
    match step.outcome {
        Socks5Outcome::Connect { target, port } => {
            assert_eq!(target, "example.com");
            assert_eq!(port, 443);
        }
        other => panic!("unexpected {:?}", other),
    }
}

#[test]
fn wrong_password_and_missing_method() {
    let proxy = Socks5Proxy::new(config(Some("bob"), Some("pw")));
    let mut s = proxy.session();
    s.on_read(&[5, 1, 2]);
    let step = s.on_read(&[1, 3, b'b', b'o', b'b', 2, b'p', b'x']);
    assert_eq!(step.reply, Some(vec![1, 1]));
    assert!(matches!(step.outcome, Socks5Outcome::Failed(Socks5Error::AuthFailed)));

    let mut s = proxy.session();
    let step = s.on_read(&[5, 1, 0]);
    assert_eq!(step.reply, Some(vec![5, 0xFF]));
    assert!(matches!(step.outcome, Socks5Outcome::Failed(Socks5Error::NoAcceptableMethod)));
    assert!(!s.accepts(&[5]));
}

#[test]
fn request_errors() {
    let proxy = Socks5Proxy::new(Socks5Config::default());
    let mut s = proxy.session();
    assert!(matches!(s.on_read(&[4, 1, 0]).outcome, Socks5Outcome::Failed(Socks5Error::InvalidVersion)));

    let mut s = proxy.session();
    assert!(matches!(s.on_read(&[5, 3, 0]).outcome, Socks5Outcome::Failed(Socks5Error::NoAcceptableMethod)));

    let mut s = proxy.session();
    s.on_read(&[5, 1, 0]);
    let step = s.on_read(&[5, 2, 0, 1, 1, 2, 3, 4, 0, 80]);
    assert_eq!(step.reply, Some(vec![5, 7, 0, 1, 0, 0, 0, 0, 0, 0]));
    assert!(matches!(step.outcome, Socks5Outcome::Failed(Socks5Error::UnsupportedCommand)));

    let mut s = proxy.session();
    s.on_read(&[5, 1, 0]);
    let step = s.on_read(&[5, 1, 0, 4]);
    assert_eq!(step.reply, Some(vec![5, 8, 0, 1, 0, 0, 0, 0, 0, 0]));
    assert!(matches!(step.outcome, Socks5Outcome::Failed(Socks5Error::UnsupportedAddressType)));

    let mut s = proxy.session();
    s.on_read(&[5, 1, 0]);
    let step = s.on_read(&[5, 1, 0, 1, 1, 2]);
    assert_eq!(step.reply, None);
    assert!(matches!(step.outcome, Socks5Outcome::Failed(Socks5Error::UnsupportedAddressType)));
}

#[test]
fn handshake_ipv4() {
    let mut h = Socks5Handshake::new();
    assert_eq!(h.expected_len(), 2);
    let step = h.on_bytes(&[5, 2]);
    assert!(step.reply.is_none());
    assert_eq!(h.expected_len(), 2);
    let step = h.on_bytes(&[2, 0]);
    assert_eq!(step.reply, Some(vec![5, 0]));
    assert_eq!(h.expected_len(), 4);
    h.on_bytes(&[5, 1, 0, 1]);
    assert_eq!(h.expected_len(), 6);
    let step = h.on_bytes(&[10, 0, 0, 1, 0, 22]);
    match step.outcome {
        HandshakeOutcome::Target { host, port } => {
            assert_eq!(host, "10.0.0.1");
            assert_eq!(port, 22);
        }
        other => panic!("unexpected {:?}", other),
    }
    assert!(h.is_done());
}

#[test]
fn handshake_domain_and_ipv6() {
    let mut h = Socks5Handshake::new();
    h.on_bytes(&[5, 1]);
    h.on_bytes(&[0]);
    h.on_bytes(&[5, 1, 0, 3]);
    assert_eq!(h.expected_len(), 1);
    h.on_bytes(&[3]);
    assert_eq!(h.expected_len(), 5);
    match h.on_bytes(&[b'a', b'b', b'c', 0, 80]).outcome {
        HandshakeOutcome::Target { host, port } => assert_eq!((host.as_str(), port), ("abc", 80)),
        other => panic!("unexpected {:?}", other),
    }

    let mut h = Socks5Handshake::new();
    h.on_bytes(&[5, 1]);
    h.on_bytes(&[0]);
    h.on_bytes(&[5, 1, 0, 4]);
    assert_eq!(h.expected_len(), 18);
    let mut addr = vec![0x20, 0x01, 0x0d, 0xb8];
    addr.extend_from_slice(&[0; 11]);
    addr.push(1);
    addr.extend_from_slice(&[0x1F, 0x90]);
    match h.on_bytes(&addr).outcome {
        HandshakeOutcome::Target { host, port } => {
            assert_eq!(host, "2001:0db8:0000:0000:0000:0000:0000:0001");
            assert_eq!(port, 8080);
        }
        other => panic!("unexpected {:?}", other),
    }
    assert_eq!(format_ipv6(&[0xff; 16]), "ffff:ffff:ffff:ffff:ffff:ffff:ffff:ffff");
}

#[test]
fn handshake_failures() {
    let mut h = Socks5Handshake::new();
    assert!(matches!(h.on_bytes(&[4, 1]).outcome, HandshakeOutcome::Failed(HandshakeError::InvalidVersion)));

    let mut h = Socks5Handshake::new();
    h.on_bytes(&[5, 1]);
    let step = h.on_bytes(&[2]);
    assert_eq!(step.reply, Some(vec![5, 0xFF]));
    assert!(matches!(step.outcome, HandshakeOutcome::Failed(HandshakeError::NoSupportedAuth)));

    let mut h = Socks5Handshake::new();
    h.on_bytes(&[5, 0]);
    assert_eq!(h.expected_len(), 0);
    let step = h.on_bytes(&[]);
    assert!(matches!(step.outcome, HandshakeOutcome::Failed(HandshakeError::NoSupportedAuth)));

    let mut h = Socks5Handshake::new();
    h.on_bytes(&[5, 1]);
    h.on_bytes(&[0]);
    assert!(matches!(h.on_bytes(&[5, 2, 0, 1]).outcome, HandshakeOutcome::Failed(HandshakeError::InvalidRequest)));

    let mut h = Socks5Handshake::new();
    h.on_bytes(&[5, 1]);
    h.on_bytes(&[0]);
    assert!(matches!(
        h.on_bytes(&[5, 1, 0, 9]).outcome,
        HandshakeOutcome::Failed(HandshakeError::UnsupportedAddressType)
    ));
    assert!(h.is_done());
    let _ = HandshakeState::Done;
}

#[test]
fn connect_replies() {
    assert_eq!(socks5_response(true), vec![5, 0, 0, 1, 0, 0, 0, 0, 0, 0]);
    assert_eq!(socks5_response(false), vec![5, 1, 0, 1, 0, 0, 0, 0, 0, 0]);
}
