pub mod client;
pub mod heartbeat;
pub mod server;
pub mod session;

pub use client::TunnelError;
pub use heartbeat::HeartbeatManager;
pub use server::ServerError;
pub use session::{ChannelInfo, ConnectionInfo, TunnelState};
