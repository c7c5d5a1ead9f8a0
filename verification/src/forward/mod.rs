pub mod local2remote;
pub mod remote2local;
pub mod socks5;

pub use local2remote::ForwardError;
pub use remote2local::Remote2LocalForwarder;
pub use socks5::{Socks5Error, Socks5Proxy};
