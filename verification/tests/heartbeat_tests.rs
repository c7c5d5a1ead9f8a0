use port_forward::tunnel::heartbeat::HeartbeatManager;

#[test]
fn test_heartbeat_flow() {
    let mut hb = HeartbeatManager::new();

    // Initial state
    assert!(!hb.is_connection_dead());

    // Send heartbeats
    hb.on_heartbeat_sent();
    assert!(!hb.is_connection_dead());
    assert_eq!(hb.failure_count(), 1);

    hb.on_heartbeat_sent();
    assert!(!hb.is_connection_dead());
    assert_eq!(hb.failure_count(), 2);

    hb.on_heartbeat_sent();
    assert!(hb.is_connection_dead());
    assert_eq!(hb.failure_count(), 3);

    // Receive pong
    hb.on_pong_received();
    assert!(!hb.is_connection_dead());
    assert_eq!(hb.failure_count(), 0);
}

#[test]
fn custom_settings_and_clock() {
    let mut hb = HeartbeatManager::with_settings(30, 1);
    assert_eq!(hb.interval(), 30);
    assert_eq!(HeartbeatManager::default().interval(), 10);
    assert_eq!(hb.time_since_last_pong(), 0);
    assert_eq!(hb.time_since_last_pong_at(5_000), 0);
    hb.on_heartbeat_sent();
    assert!(hb.is_connection_dead());
    hb.record_pong(1_000);
    assert!(!hb.is_connection_dead());
    assert_eq!(hb.time_since_last_pong_at(1_250), 250);
    assert_eq!(hb.time_since_last_pong_at(900), 0);
    hb.reset();
    assert_eq!(hb.time_since_last_pong_at(2_000), 0);
    assert_eq!(hb.failure_count(), 0);
}

#[test]
fn zero_failure_limit_is_always_dead() {
    let mut hb = HeartbeatManager::with_settings(1, 0);
    assert!(hb.is_connection_dead());
    hb.on_pong_received();
    assert!(hb.is_connection_dead());
}
