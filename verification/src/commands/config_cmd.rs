use vstd::prelude::*;

verus! {

/// Application configuration of the desktop front end
#[derive(Debug)]
pub struct AppConfig {
    pub mode: String,
    pub listen_port: u16,
    pub password: String,
    pub forward_ports: Vec<u16>,
    pub server_host: String,
    pub server_port: u16,
    pub reconnect_interval: u32,
}

/// The default tunnel listening port of server mode.
pub fn default_listen_port() -> (p: u16)
    ensures
        p == 5173,
{
    5173
}

/// The default port that client mode connects to.
pub fn default_server_port() -> (p: u16)
    ensures
        p == 5173,
{
    5173
}

/// The default reconnect interval, in seconds.
pub fn default_reconnect_interval() -> (secs: u32)
    ensures
        secs == 5,
{
    5
}

impl Default for AppConfig {
    fn default() -> (c: Self)
        ensures
            c.mode@ == "client"@,
            c.listen_port == 5173,
            c.password@.len() == 0,
            c.forward_ports@.len() == 0,
            c.server_host@.len() == 0,
            c.server_port == 5173,
            c.reconnect_interval == 5,
    {
        AppConfig {
            mode: "client".to_string(),
            listen_port: default_listen_port(),
            password: String::new(),
            forward_ports: Vec::new(),
            server_host: String::new(),
            server_port: default_server_port(),
            reconnect_interval: default_reconnect_interval(),
        }
    }
}

} // verus!
