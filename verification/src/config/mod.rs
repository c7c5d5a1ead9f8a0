pub mod schema;

pub use schema::{
    AppConfig, AuthConfig, LogConfig, Local2RemoteRule, PortForwardConfig, Remote2LocalRule,
    ServerConfig, SettingsConfig, Socks5Config, ThemeConfig, ThemeMode, TrayConfig,
};
