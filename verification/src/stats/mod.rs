pub mod counter;

pub use counter::{ServerTrafficStats, SpeedWindow, TrafficSample, TrafficSummary};
