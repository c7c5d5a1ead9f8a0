pub mod config_cmd;
pub mod stats_cmd;

pub use config_cmd::AppConfig;
pub use stats_cmd::Stats;
