use port_forward::clock::Timestamp;
use port_forward::commands::config_cmd::{
    default_listen_port, default_reconnect_interval, default_server_port, AppConfig as UiConfig,
};
use port_forward::commands::stats_cmd::{InternalStats, Stats};
use port_forward::config::schema::{
    default_reconnect_interval as default_server_reconnect, AppConfig, Local2RemoteRule,
    Remote2LocalRule, ServerConfig, SettingsConfig, Socks5Config, ThemeMode,
};
use port_forward::stats::counter::{ServerTrafficStats, SpeedWindow, TrafficSummary};

fn server(id: &str, name: &str) -> ServerConfig {
    let mut s = ServerConfig::new(name.to_string(), "host".to_string(), 5173, "pw".to_string());
    s.id = id.to_string();
    s
}

#[test]
fn defaults() {
    let c = AppConfig::default();
    assert!(c.servers.is_empty());
    assert_eq!(c.settings.theme.mode, ThemeMode::System);
    assert_eq!(c.settings.theme.accent_color, "#DC2626");
    assert_eq!(c.settings.log.level, "info");
    assert_eq!(c.settings.log.max_size_mb, 10);
    assert!(c.settings.tray.show_on_startup && c.settings.tray.minimize_to_tray);
    let s = Socks5Config::default();
    assert!(s.enabled && s.port == 1080 && s.username.is_none() && s.password.is_none() && !s.local_resolution);
    assert_eq!(default_server_reconnect(), 5);
    let ui = UiConfig::default();
    assert_eq!(ui.mode, "client");
    assert_eq!((ui.listen_port, ui.server_port, ui.reconnect_interval), (5173, 5173, 5));
    assert!(ui.password.is_empty() && ui.server_host.is_empty() && ui.forward_ports.is_empty());
    assert_eq!((default_listen_port(), default_server_port(), default_reconnect_interval()), (5173, 5173, 5));
}

#[test]
fn new_entries_get_fresh_ids() {
    let a = ServerConfig::new("n".to_string(), "h".to_string(), 1, "p".to_string());
    let b = ServerConfig::new("n".to_string(), "h".to_string(), 1, "p".to_string());
    assert_eq!(a.id.len(), 36);
    assert_ne!(a.id, b.id);
    assert!(a.auto_reconnect && a.reconnect_interval == 5 && a.socks5.is_none());
    let r = Local2RemoteRule::new(80, "10.0.0.2".to_string(), 8080);
    assert!(r.enabled && r.name.is_none() && r.id.len() == 36);
    let r = Remote2LocalRule::new(80, "127.0.0.1".to_string(), 8080);
    assert!(r.enabled && r.local_port == 8080 && r.remote_port == 80);
}

#[test]
fn server_list_operations() {
    let mut c = AppConfig::default();
    c.add_server(server("a", "first"));
    c.add_server(server("b", "second"));
    c.add_server(server("a", "third"));
    assert_eq!(c.position_of_server("a"), Some(0));
    assert_eq!(c.position_of_server("b"), Some(1));
    assert_eq!(c.position_of_server("z"), None);

    assert_eq!(c.update_server(server("b", "renamed")), Ok(()));
    assert_eq!(c.servers[1].name, "renamed");
    assert_eq!(c.update_server(server("z", "none")), Err("Server not found".to_string()));
    assert_eq!(c.servers.len(), 3);

    c.remove_server("a");
    assert_eq!(c.servers.len(), 1);
    assert_eq!(c.servers[0].id, "b");
    c.update_settings(SettingsConfig::default());
    assert_eq!(c.settings.log.level, "info");
}

fn ts(secs: i64, nanos: u32) -> Timestamp {
    Timestamp { secs, nanos }
}

#[test]
fn traffic_history_and_speeds() {
    let mut s = ServerTrafficStats::new();
    assert_eq!(s.speed_window(), None);
    s.add_upload(100);
    s.add_download(50);
    s.inc_connections();
    s.record_sample_at(ts(1000, 0));
    assert_eq!(s.speed_window(), None);
    s.add_upload(1000);
    s.add_download(10);
    s.record_sample_at(ts(1010, 500_000_000));
    assert_eq!(
        s.speed_window(),
        Some(SpeedWindow { upload_bytes: 1000, download_bytes: 10, seconds: 10 })
    );
    let h = s.get_history();
    assert_eq!(h.len(), 2);
    assert_eq!((h[0].upload_bytes, h[1].upload_bytes), (100, 1100));
    s.dec_active_connections();
    assert_eq!(s.active_connections(), 0);
    assert_eq!(s.total_connections(), 1);
    let sum = s.summary_with_speeds(100, 1);
    assert_eq!(sum.total_upload, 1100);
    assert_eq!(sum.upload_speed_bps, 100);
    s.reset();
    assert_eq!((s.total_upload(), s.total_download(), s.total_connections()), (0, 0, 0));
    assert_eq!(s.get_history().len(), 2);
    assert_eq!(TrafficSummary::default().total_upload, 0);
}

#[test]
fn history_keeps_last_360() {
    let mut s = ServerTrafficStats::default();
    for i in 0..400 {
        s.add_upload(1);
        s.record_sample_at(ts(i, 0));
    }
    let h = s.get_history();
    assert_eq!(h.len(), 360);
    assert_eq!(h[0].timestamp, ts(40, 0));
    assert_eq!(h[359].timestamp, ts(399, 0));
    s.record_sample();
    assert_eq!(s.get_history().len(), 360);
}

#[test]
fn sub_second_windows_give_no_speed() {
    let mut s = ServerTrafficStats::new();
    s.record_sample_at(ts(5, 100));
    s.record_sample_at(ts(5, 900_000_000));
    assert_eq!(s.speed_window(), None);
    assert_eq!(ts(10, 0).seconds_since(&ts(12, 500_000_000)), -2);
    assert_eq!(ts(12, 499_999_999).seconds_since(&ts(10, 500_000_000)), 1);
}

#[test]
fn counter_wrapping_and_snapshots() {
    let mut s = ServerTrafficStats::new();
    s.dec_active_connections();
    assert_eq!(s.active_connections(), u64::MAX);
    s.add_upload(u64::MAX);
    s.add_upload(2);
    assert_eq!(s.total_upload(), 1);

    let mut i = InternalStats::new();
    i.add_upload(10);
    i.add_download(4);
    i.inc_connections();
    let c = i.take_counts();
    assert_eq!((c.upload_diff, c.download_diff, c.total_upload, c.active_connections), (10, 4, 10, 1));
    i.add_upload(5);
    let c = i.take_counts();
    assert_eq!((c.upload_diff, c.download_diff, c.total_upload), (5, 0, 15));
    i.dec_connections();
    let snap = Stats::from_counts(i.take_counts(), 2, 3);
    assert_eq!(snap, Stats { upload_speed: 2, download_speed: 3, total_upload: 15, total_download: 4, active_connections: 0 });
    assert_eq!(Stats::default().total_upload, 0);
}
