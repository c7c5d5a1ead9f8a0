use vstd::prelude::*;

use crate::clock::{utc_now, Timestamp};

verus! {

/// Tunnel connection state
#[derive(Debug, Clone, Copy, PartialEq, Eq, Structural)]
pub enum TunnelState {
    Disconnected,
    Connecting,
    Authenticating,
    Connected,
    Reconnecting,
    Error,
}

impl TunnelState {
    /// The byte a state is stored as: its position in the declaration, from 0.
    pub open spec fn spec_code(self) -> u8 {
        match self {
            TunnelState::Disconnected => 0,
            TunnelState::Connecting => 1,
            TunnelState::Authenticating => 2,
            TunnelState::Connected => 3,
            TunnelState::Reconnecting => 4,
            TunnelState::Error => 5,
        }
    }

    /// The state a tunnel client reads back from a stored byte.
    pub open spec fn spec_from_client_code(code: u8) -> TunnelState {
        if code == 0 {
            TunnelState::Disconnected
        } else if code == 1 {
            TunnelState::Connecting
        } else if code == 2 {
            TunnelState::Authenticating
        } else if code == 3 {
            TunnelState::Connected
        } else if code == 4 {
            TunnelState::Reconnecting
        } else {
            TunnelState::Error
        }
    }

    /// The state a tunnel server reads back from a stored byte (it knows no
    /// reconnecting state).
    pub open spec fn spec_from_server_code(code: u8) -> TunnelState {
        if code == 4 {
            TunnelState::Error
        } else {
            Self::spec_from_client_code(code)
        }
    }

    /// The display text of a state.
    pub open spec fn spec_text(self) -> Seq<char> {
        match self {
            TunnelState::Disconnected => "Disconnected"@,
            TunnelState::Connecting => "Connecting"@,
            TunnelState::Authenticating => "Authenticating"@,
            TunnelState::Connected => "Connected"@,
            TunnelState::Reconnecting => "Reconnecting"@,
            TunnelState::Error => "Error"@,
        }
    }

    /// The byte this state is stored as
    pub fn to_code(self) -> (c: u8)
        ensures
            c == self.spec_code(),
    {
        match self {
            TunnelState::Disconnected => 0,
            TunnelState::Connecting => 1,
            TunnelState::Authenticating => 2,
            TunnelState::Connected => 3,
            TunnelState::Reconnecting => 4,
            TunnelState::Error => 5,
        }
    }

    /// The state a tunnel client reads from a stored byte
    pub fn from_client_code(code: u8) -> (s: TunnelState)
        ensures
            s == Self::spec_from_client_code(code),
    {
        match code {
            0 => TunnelState::Disconnected,
            1 => TunnelState::Connecting,
            2 => TunnelState::Authenticating,
            3 => TunnelState::Connected,
            4 => TunnelState::Reconnecting,
            _ => TunnelState::Error,
        }
    }

    /// The state a tunnel server reads from a stored byte
    pub fn from_server_code(code: u8) -> (s: TunnelState)
        ensures
            s == Self::spec_from_server_code(code),
    {
        match code {
            0 => TunnelState::Disconnected,
            1 => TunnelState::Connecting,
            2 => TunnelState::Authenticating,
            3 => TunnelState::Connected,
            _ => TunnelState::Error,
        }
    }

    /// The display text of this state
    pub fn to_string(&self) -> (s: String)
        ensures
            s@ == self.spec_text(),
    {
        match self {
            TunnelState::Disconnected => "Disconnected".to_string(),
            TunnelState::Connecting => "Connecting".to_string(),
            TunnelState::Authenticating => "Authenticating".to_string(),
            TunnelState::Connected => "Connected".to_string(),
            TunnelState::Reconnecting => "Reconnecting".to_string(),
            TunnelState::Error => "Error".to_string(),
        }
    }
}

/// A client reads back every state it stores.
pub proof fn lemma_client_code_roundtrip(s: TunnelState)
    ensures
        TunnelState::spec_from_client_code(s.spec_code()) == s,
{
}

/// A server reads back every state it stores except `Reconnecting`, which it reads as
/// `Error`.
pub proof fn lemma_server_code_roundtrip(s: TunnelState)
    ensures
        s != TunnelState::Reconnecting ==> TunnelState::spec_from_server_code(s.spec_code()) == s,
        TunnelState::spec_from_server_code(TunnelState::Reconnecting.spec_code())
            == TunnelState::Error,
{
}

/// Connection information exposed to frontend
#[derive(Debug)]
pub struct ConnectionInfo {
    pub server_id: String,
    pub state: TunnelState,
    pub connected_at: Option<Timestamp>,
    pub latency_ms: Option<u64>,
    pub error_message: Option<String>,
}

impl ConnectionInfo {
    pub fn disconnected(server_id: &str) -> (c: Self)
        ensures
            c.server_id@ == server_id@,
            c.state == TunnelState::Disconnected,
            c.connected_at is None,
            c.latency_ms is None,
            c.error_message is None,
    {
        ConnectionInfo {
            server_id: server_id.to_string(),
            state: TunnelState::Disconnected,
            connected_at: None,
            latency_ms: None,
            error_message: None,
        }
    }

    pub fn connecting(server_id: &str) -> (c: Self)
        ensures
            c.server_id@ == server_id@,
            c.state == TunnelState::Connecting,
            c.connected_at is None,
            c.latency_ms is None,
            c.error_message is None,
    {
        ConnectionInfo {
            server_id: server_id.to_string(),
            state: TunnelState::Connecting,
            connected_at: None,
            latency_ms: None,
            error_message: None,
        }
    }

    /// Connected now; reads the clock
    pub fn connected(server_id: &str) -> (c: Self)
        ensures
            c.server_id@ == server_id@,
            c.state == TunnelState::Connected,
            c.connected_at is Some,
            c.latency_ms is None,
            c.error_message is None,
    {
        ConnectionInfo {
            server_id: server_id.to_string(),
            state: TunnelState::Connected,
            connected_at: Some(utc_now()),
            latency_ms: None,
            error_message: None,
        }
    }

    pub fn error(server_id: &str, message: &str) -> (c: Self)
        ensures
            c.server_id@ == server_id@,
            c.state == TunnelState::Error,
            c.connected_at is None,
            c.latency_ms is None,
            c.error_message matches Some(m) && m@ == message@,
    {
        ConnectionInfo {
            server_id: server_id.to_string(),
            state: TunnelState::Error,
            connected_at: None,
            latency_ms: None,
            error_message: Some(message.to_string()),
        }
    }
}

/// Active channel information
#[derive(Debug)]
pub struct ChannelInfo {
    pub channel_id: u32,
    pub target_ip: String,
    pub target_port: u16,
    pub created_at: Timestamp,
    pub bytes_sent: u64,
    pub bytes_received: u64,
}

impl ChannelInfo {
    /// A channel created now, with no traffic yet; reads the clock
    pub fn new(channel_id: u32, target_ip: String, target_port: u16) -> (c: Self)
        ensures
            c.channel_id == channel_id,
            c.target_ip@ == target_ip@,
            c.target_port == target_port,
            c.bytes_sent == 0,
            c.bytes_received == 0,
    {
        ChannelInfo {
            channel_id,
            target_ip,
            target_port,
            created_at: utc_now(),
            bytes_sent: 0,
            bytes_received: 0,
        }
    }
}

} // verus!
