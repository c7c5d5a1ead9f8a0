use port_forward::cli::{
    allocate_channel_id, client_start_check, client_start_outcome, client_tunnel_action,
    parse_forward_ports, server_start_check, server_start_outcome, server_tunnel_action,
    tunnel_wait_step, ConnectionStatus, ForwardedPort, TunnelAction,
};
use port_forward::protocol::frame::{Frame, FrameType};

#[test]
fn forward_port_lists() {
    assert_eq!(parse_forward_ports("1080,3389"), vec![1080, 3389]);
    assert_eq!(parse_forward_ports(" 1080 , x, 70000,,+22,\u{3000}443\t"), vec![1080, 22, 443]);
    assert_eq!(parse_forward_ports(""), Vec::<u16>::new());
    assert_eq!(parse_forward_ports("65535,65536,-1,+,007"), vec![65535, 7]);
}

#[test]
fn start_decisions() {
    assert_eq!(server_start_check(ConnectionStatus::Connected), Err("服务已在运行".to_string()));
    assert_eq!(server_start_check(ConnectionStatus::Error), Ok(()));
    assert_eq!(server_start_outcome(ConnectionStatus::Connected, None), Ok(()));
    assert_eq!(server_start_outcome(ConnectionStatus::Error, Some("boom".to_string())), Err("boom".to_string()));
    assert_eq!(server_start_outcome(ConnectionStatus::Connecting, None), Err("启动失败".to_string()));
    assert_eq!(client_start_check(ConnectionStatus::Connected), Err("客户端已在运行".to_string()));
    assert_eq!(client_start_check(ConnectionStatus::Disconnected), Ok(()));
    assert_eq!(client_start_outcome(ConnectionStatus::Connected), Ok(()));
    assert_eq!(client_start_outcome(ConnectionStatus::Connecting), Err("连接失败".to_string()));
}

#[test]
fn waiting_for_a_tunnel() {
    let w = tunnel_wait_step(0);
    assert_eq!((w.attempts, w.log, w.timed_out), (1, false, false));
    let w = tunnel_wait_step(9);
    assert_eq!((w.attempts, w.log, w.timed_out), (10, true, false));
    let w = tunnel_wait_step(49);
    assert_eq!((w.attempts, w.log, w.timed_out), (50, true, false));
    let w = tunnel_wait_step(50);
    assert_eq!((w.attempts, w.log, w.timed_out), (51, false, true));
}

#[test]
fn channel_ids_count_up() {
    let mut next = 1u32;
    assert_eq!(allocate_channel_id(&mut next), 1);
    assert_eq!(allocate_channel_id(&mut next), 2);
    assert_eq!(next, 3);
}

#[test]
fn forwarded_port_accounting() {
    let mut fp = ForwardedPort::starting(1080);
    assert_eq!(fp.status, "starting");
    fp.mark_listening();
    assert_eq!(fp.status, "listening");
    fp.connection_opened();
    fp.connection_opened();
    fp.connection_closed();
    assert_eq!(fp.connections, 1);
    fp.connection_closed();
    fp.connection_closed();
    assert_eq!(fp.connections, 0);
    fp.add_upload(10);
    fp.add_download(7);
    assert_eq!((fp.upload, fp.download), (10, 7));
    fp.mark_bind_error("address in use");
    assert_eq!(fp.status, "error: address in use");
}

#[test]
fn frame_dispatch() {
    match server_tunnel_action(Frame::data(4, vec![1, 2])) {
        TunnelAction::Forward { channel_id, data } => assert_eq!((channel_id, data), (4, vec![1, 2])),
        other => panic!("unexpected {:?}", other),
    }
    match server_tunnel_action(Frame::heartbeat()) {
        TunnelAction::Reply(f) => assert_eq!(f.frame_type, FrameType::HeartbeatAck),
        other => panic!("unexpected {:?}", other),
    }
    assert!(matches!(server_tunnel_action(Frame::close_channel(3)), TunnelAction::Close { channel_id: 3 }));
    assert!(matches!(server_tunnel_action(Frame::open_channel(3, vec![])), TunnelAction::Ignore));
    assert!(matches!(server_tunnel_action(Frame::heartbeat_ack()), TunnelAction::Ignore));

    match client_tunnel_action(Frame::open_channel(8, b"{}".to_vec())) {
        TunnelAction::Open { channel_id, payload } => assert_eq!((channel_id, payload), (8, b"{}".to_vec())),
        other => panic!("unexpected {:?}", other),
    }
    assert!(matches!(client_tunnel_action(Frame::data(1, vec![])), TunnelAction::Forward { channel_id: 1, .. }));
    assert!(matches!(client_tunnel_action(Frame::close_channel(2)), TunnelAction::Close { channel_id: 2 }));
    assert!(matches!(client_tunnel_action(Frame::heartbeat()), TunnelAction::Reply(_)));
    assert!(matches!(client_tunnel_action(Frame::error("x")), TunnelAction::Ignore));
}
