use vstd::prelude::*;

use crate::text::{format_hex_pair, format_ipv4, hex_text, ipv4_text, utf8_lossy, utf8_lossy_text};
use crate::forward::socks5::{port_from_be, spec_port};
use crate::protocol::frame::{Frame, FrameType, FrameView};
use vstd::string::StrSliceExecFns;

verus! {

/// Why the SOCKS5 handshake on a forward port failed.
#[derive(Debug, Clone, Copy, PartialEq, Eq, Structural)]
pub enum HandshakeError {
    /// The first byte is not version 5 ("Invalid SOCKS version")
    InvalidVersion,
    /// The client does not offer "no authentication" ("No supported auth method")
    NoSupportedAuth,
    /// The request is not a version-5 CONNECT ("Invalid request")
    InvalidRequest,
    /// The address type is none of IPv4, domain, IPv6 ("Unsupported address type")
    UnsupportedAddressType,
}

/// What the handshake waits for next; each state reads an exact number of bytes.
#[derive(Debug, Clone, Copy, PartialEq, Eq, Structural)]
pub enum HandshakeState {
    /// Version and method count: 2 bytes
    Version,
    /// The offered methods: as many bytes as announced
    Methods(u8),
    /// Version, command, reserved byte, address type: 4 bytes
    Request,
    /// IPv4 address and port: 6 bytes
    Ipv4,
    /// Length of the domain name: 1 byte
    DomainLen,
    /// Domain name of the given length, then the port
    Domain(u8),
    /// IPv6 address and port: 18 bytes
    Ipv6,
    /// The handshake is over
    Done,
}

/// How many bytes a handshake state reads.
pub open spec fn spec_expected_len(s: HandshakeState) -> nat {
    match s {
        HandshakeState::Version => 2,
        HandshakeState::Methods(n) => n as nat,
        HandshakeState::Request => 4,
        HandshakeState::Ipv4 => 6,
        HandshakeState::DomainLen => 1,
        HandshakeState::Domain(len) => len as nat + 2,
        HandshakeState::Ipv6 => 18,
        HandshakeState::Done => 0,
    }
}

/// What a chunk of handshake bytes leads to.
#[derive(Debug)]
pub enum HandshakeOutcome {
    /// Read the next chunk
    Continue,
    /// The handshake failed
    Failed(HandshakeError),
    /// The client asked to connect to this target
    Target { host: String, port: u16 },
}

/// The reply to write (if any) and what the chunk leads to.
#[derive(Debug)]
pub struct HandshakeStep {
    pub reply: Option<Vec<u8>>,
    pub outcome: HandshakeOutcome,
}

/// The mathematical content of a handshake outcome.
pub enum HandshakeOutcomeView {
    Continue,
    Failed(HandshakeError),
    Target(Seq<char>, u16),
}

/// The mathematical content of a handshake step, with the state it leads to.
pub struct HandshakeStepView {
    pub reply: Option<Seq<u8>>,
    pub outcome: HandshakeOutcomeView,
    pub next: HandshakeState,
}

impl HandshakeStep {
    pub open spec fn view_with(self, next: HandshakeState) -> HandshakeStepView {
        HandshakeStepView {
            reply: match self.reply {
                Some(r) => Some(r@),
                None => None,
            },
            outcome: match self.outcome {
                HandshakeOutcome::Continue => HandshakeOutcomeView::Continue,
                HandshakeOutcome::Failed(e) => HandshakeOutcomeView::Failed(e),
                HandshakeOutcome::Target { host, port } => HandshakeOutcomeView::Target(host@, port),
            },
            next,
        }
    }
}

/// Colon-separated groups of four hexadecimal digits, one group per two bytes, for the
/// first `k` groups.
pub open spec fn hex_groups(b: Seq<u8>, k: nat) -> Seq<char>
    decreases k,
{
    if k == 0 {
        Seq::empty()
    } else if k == 1 {
        hex_text(b.subrange(0, 2))
    } else {
        hex_groups(b, (k - 1) as nat) + seq![':'] + hex_text(b.subrange(2 * k - 2, 2 * k as int))
    }
}

/// The text of a 16-byte IPv6 address: eight groups of four lowercase hex digits
/// joined by colons, no compression.
pub open spec fn ipv6_text(b: Seq<u8>) -> Seq<char> {
    hex_groups(b, 8)
}

pub open spec fn hs_step(reply: Option<Seq<u8>>, outcome: HandshakeOutcomeView, next: HandshakeState) -> HandshakeStepView {
    HandshakeStepView { reply, outcome, next }
}

pub open spec fn hs_fail(reply: Option<Seq<u8>>, e: HandshakeError) -> HandshakeStepView {
    hs_step(reply, HandshakeOutcomeView::Failed(e), HandshakeState::Done)
}

/// A forward port accepts a client that offers "no authentication" anywhere in its
/// list of methods: in the methods state the reply is `[5, 0]` and the handshake goes on
/// to the request exactly when some offered method byte is `0x00`; otherwise the reply
/// is `[5, 0xFF]` and the handshake fails with `NoSupportedAuth`.
pub proof fn lemma_no_auth_offer_accepted(n: u8, d: Seq<u8>)
    ensures
        (exists|j: int| 0 <= j < d.len() && d[j] == 0x00) ==> {
            &&& spec_handshake_step(HandshakeState::Methods(n), d).reply == Some(seq![0x05u8, 0x00u8])
            &&& spec_handshake_step(HandshakeState::Methods(n), d).outcome is Continue
            &&& spec_handshake_step(HandshakeState::Methods(n), d).next == HandshakeState::Request
        },
        !(exists|j: int| 0 <= j < d.len() && d[j] == 0x00) ==> {
            &&& spec_handshake_step(HandshakeState::Methods(n), d).reply == Some(seq![0x05u8, 0xFFu8])
            &&& spec_handshake_step(HandshakeState::Methods(n), d).outcome
                == HandshakeOutcomeView::Failed(HandshakeError::NoSupportedAuth)
            &&& spec_handshake_step(HandshakeState::Methods(n), d).next == HandshakeState::Done
        },
{
}

/// What a handshake in state `s` does with the chunk `d` it read.
pub open spec fn spec_handshake_step(s: HandshakeState, d: Seq<u8>) -> HandshakeStepView {
    match s {
        HandshakeState::Version => if d[0] != 0x05 {
            hs_fail(None, HandshakeError::InvalidVersion)
        } else {
            hs_step(None, HandshakeOutcomeView::Continue, HandshakeState::Methods(d[1]))
        },
        HandshakeState::Methods(_) => if !d.contains(0x00) {
            hs_fail(Some(seq![0x05u8, 0xFFu8]), HandshakeError::NoSupportedAuth)
        } else {
            hs_step(Some(seq![0x05u8, 0x00u8]), HandshakeOutcomeView::Continue, HandshakeState::Request)
        },
        HandshakeState::Request => if d[0] != 0x05 || d[1] != 0x01 {
            hs_fail(None, HandshakeError::InvalidRequest)
        } else if d[3] == 0x01 {
            hs_step(None, HandshakeOutcomeView::Continue, HandshakeState::Ipv4)
        } else if d[3] == 0x03 {
            hs_step(None, HandshakeOutcomeView::Continue, HandshakeState::DomainLen)
        } else if d[3] == 0x04 {
            hs_step(None, HandshakeOutcomeView::Continue, HandshakeState::Ipv6)
        } else {
            hs_fail(None, HandshakeError::UnsupportedAddressType)
        },
        HandshakeState::Ipv4 => hs_step(
            None,
            HandshakeOutcomeView::Target(ipv4_text(d[0], d[1], d[2], d[3]), spec_port(d[4], d[5])),
            HandshakeState::Done,
        ),
        HandshakeState::DomainLen => hs_step(
            None,
            HandshakeOutcomeView::Continue,
            HandshakeState::Domain(d[0]),
        ),
        HandshakeState::Domain(len) => hs_step(
            None,
            HandshakeOutcomeView::Target(
                utf8_lossy_text(d.subrange(0, len as int)),
                spec_port(d[len as int], d[len + 1]),
            ),
            HandshakeState::Done,
        ),
        HandshakeState::Ipv6 => hs_step(
            None,
            HandshakeOutcomeView::Target(ipv6_text(d.subrange(0, 16)), spec_port(d[16], d[17])),
            HandshakeState::Done,
        ),
        HandshakeState::Done => hs_fail(None, HandshakeError::InvalidVersion),
    }
}

/// Formats a 16-byte IPv6 address as eight colon-separated groups of four hex digits
pub fn format_ipv6(b: &[u8]) -> (s: String)
    requires
        b@.len() >= 16,
    ensures
        s@ == ipv6_text(b@.subrange(0, 16)),
{
    let mut s = String::new();
    let mut i: usize = 0;
    while i < 8
        invariant
            i <= 8,
            b@.len() >= 16,
            s@ == hex_groups(b@.subrange(0, 16), i as nat),
        decreases 8 - i,
    {
        let group = format_hex_pair(b[2 * i], b[2 * i + 1]);
        let ghost pair = b@.subrange(0, 16).subrange(2 * i as int, 2 * i + 2);
        assert(pair =~= seq![b@[2 * i as int], b@[2 * i + 1]]);
        if i > 0 {
            let sep = ":";
            proof {
                reveal_strlit(":");
            }
            s.append(sep);
        }
        s.append(group.as_str());
        i = i + 1;
        assert(s@ =~= hex_groups(b@.subrange(0, 16), i as nat));
    }
    s
}

/// The SOCKS5 handshake that a forward port runs with each local client: no
/// authentication, CONNECT only.
pub struct Socks5Handshake {
    state: HandshakeState,
}

impl View for Socks5Handshake {
    type V = HandshakeState;

    closed spec fn view(&self) -> HandshakeState {
        self.state
    }
}

impl Socks5Handshake {
    pub fn new() -> (h: Self)
        ensures
            h@ == HandshakeState::Version,
    {
        Socks5Handshake { state: HandshakeState::Version }
    }

    /// How many bytes to read next (0 once the handshake is over)
    pub fn expected_len(&self) -> (n: usize)
        ensures
            n == spec_expected_len(self@),
    {
        match self.state {
            HandshakeState::Version => 2,
            HandshakeState::Methods(n) => n as usize,
            HandshakeState::Request => 4,
            HandshakeState::Ipv4 => 6,
            HandshakeState::DomainLen => 1,
            HandshakeState::Domain(len) => len as usize + 2,
            HandshakeState::Ipv6 => 18,
            HandshakeState::Done => 0,
        }
    }

    /// Whether the handshake is over
    pub fn is_done(&self) -> (b: bool)
        ensures
            b == (self@ == HandshakeState::Done),
    {
        self.state == HandshakeState::Done
    }

    /// Handles the chunk of exactly `expected_len()` bytes that was read
    pub fn on_bytes(&mut self, data: &[u8]) -> (step: HandshakeStep)
        requires
            old(self)@ != HandshakeState::Done,
            data@.len() == spec_expected_len(old(self)@),
        ensures
            step.view_with(final(self)@) == spec_handshake_step(old(self)@, data@),
    {
        match self.state {
            HandshakeState::Version => {
                if data[0] != 0x05 {
                    self.state = HandshakeState::Done;
                    return HandshakeStep {
                        reply: None,
                        outcome: HandshakeOutcome::Failed(HandshakeError::InvalidVersion),
                    };
                }
                self.state = HandshakeState::Methods(data[1]);
                HandshakeStep { reply: None, outcome: HandshakeOutcome::Continue }
            },
            HandshakeState::Methods(_) => {
                let mut has_no_auth = false;
                let mut i: usize = 0;
                while i < data.len()
                    invariant
                        i <= data@.len(),
                        has_no_auth == exists|j: int| 0 <= j < i && data@[j] == 0x00,
                    decreases data@.len() - i,
                {
                    if data[i] == 0x00 {
                        has_no_auth = true;
                    }
                    i = i + 1;
                }
                assert(has_no_auth == data@.contains(0x00));
                let mut reply: Vec<u8> = Vec::new();
                reply.push(0x05);
                if !has_no_auth {
                    reply.push(0xFF);
                    assert(reply@ =~= seq![0x05u8, 0xFFu8]);
                    self.state = HandshakeState::Done;
                    return HandshakeStep {
                        reply: Some(reply),
                        outcome: HandshakeOutcome::Failed(HandshakeError::NoSupportedAuth),
                    };
                }
                reply.push(0x00);
                assert(reply@ =~= seq![0x05u8, 0x00u8]);
                self.state = HandshakeState::Request;
                HandshakeStep { reply: Some(reply), outcome: HandshakeOutcome::Continue }
            },
            HandshakeState::Request => {
                if data[0] != 0x05 || data[1] != 0x01 {
                    self.state = HandshakeState::Done;
                    return HandshakeStep {
                        reply: None,
                        outcome: HandshakeOutcome::Failed(HandshakeError::InvalidRequest),
                    };
                }
                let atyp = data[3];
                if atyp == 0x01 {
                    self.state = HandshakeState::Ipv4;
                } else if atyp == 0x03 {
                    self.state = HandshakeState::DomainLen;
                } else if atyp == 0x04 {
                    self.state = HandshakeState::Ipv6;
                } else {
                    self.state = HandshakeState::Done;
                    return HandshakeStep {
                        reply: None,
                        outcome: HandshakeOutcome::Failed(HandshakeError::UnsupportedAddressType),
                    };
                }
                HandshakeStep { reply: None, outcome: HandshakeOutcome::Continue }
            },
            HandshakeState::Ipv4 => {
                let host = format_ipv4(data[0], data[1], data[2], data[3]);
                let port = port_from_be(data[4], data[5]);
                self.state = HandshakeState::Done;
                HandshakeStep { reply: None, outcome: HandshakeOutcome::Target { host, port } }
            },
            HandshakeState::DomainLen => {
                self.state = HandshakeState::Domain(data[0]);
                HandshakeStep { reply: None, outcome: HandshakeOutcome::Continue }
            },
            HandshakeState::Domain(len) => {
                let len = len as usize;
                let host = utf8_lossy(vstd::slice::slice_subrange(data, 0, len));
                let port = port_from_be(data[len], data[len + 1]);
                self.state = HandshakeState::Done;
                HandshakeStep { reply: None, outcome: HandshakeOutcome::Target { host, port } }
            },
            HandshakeState::Ipv6 => {
                let host = format_ipv6(data);
                let port = port_from_be(data[16], data[17]);
                self.state = HandshakeState::Done;
                HandshakeStep { reply: None, outcome: HandshakeOutcome::Target { host, port } }
            },
            HandshakeState::Done => {
                HandshakeStep {
                    reply: None,
                    outcome: HandshakeOutcome::Failed(HandshakeError::InvalidVersion),
                }
            },
        }
    }
}

/// The reply to a CONNECT request: `[5, 0 or 1, 0, 1, 0, 0, 0, 0, 0, 0]`, success or
/// general failure
pub fn socks5_response(success: bool) -> (r: Vec<u8>)
    ensures
        r@ == crate::forward::socks5::spec_reply(if success { 0x00u8 } else { 0x01u8 }),
{
    let reply: u8 = if success { 0x00 } else { 0x01 };
    crate::forward::socks5::reply_bytes(reply)
}

/// Connection status
#[derive(Debug, Clone, Copy, PartialEq, Eq, Structural)]
pub enum ConnectionStatus {
    Disconnected,
    Connecting,
    Connected,
    Error,
}

/// Forwarded port status
#[derive(Debug)]
pub struct ForwardedPort {
    pub port: u16,
    pub status: String,
    pub connections: u32,
    pub upload: u64,
    pub download: u64,
}

impl ForwardedPort {
    /// A forward port that is being set up
    pub fn starting(port: u16) -> (fp: Self)
        ensures
            fp.port == port,
            fp.status@ == "starting"@,
            fp.connections == 0,
            fp.upload == 0,
            fp.download == 0,
    {
        ForwardedPort { port, status: "starting".to_string(), connections: 0, upload: 0, download: 0 }
    }

    /// The port listens
    pub fn mark_listening(&mut self)
        ensures
            final(self).status@ == "listening"@,
            final(self).port == old(self).port,
            final(self).connections == old(self).connections,
            final(self).upload == old(self).upload,
            final(self).download == old(self).download,
    {
        self.status = "listening".to_string();
    }

    /// The port could not be bound; `message` describes why
    pub fn mark_bind_error(&mut self, message: &str)
        ensures
            final(self).status@ == "error: "@ + message@,
            final(self).port == old(self).port,
            final(self).connections == old(self).connections,
            final(self).upload == old(self).upload,
            final(self).download == old(self).download,
    {
        let prefix = "error: ";
        let mut status = prefix.to_string();
        status.append(message);
        self.status = status;
    }

    /// A local client connected
    pub fn connection_opened(&mut self)
        requires
            old(self).connections < u32::MAX,
        ensures
            final(self).connections == old(self).connections + 1,
            final(self).status@ == old(self).status@,
            final(self).port == old(self).port,
            final(self).upload == old(self).upload,
            final(self).download == old(self).download,
    {
        self.connections = self.connections + 1;
    }

    /// A local client went away (the count never goes below 0)
    pub fn connection_closed(&mut self)
        ensures
            final(self).connections == if old(self).connections == 0 {
                0
            } else {
                old(self).connections - 1
            },
            final(self).status@ == old(self).status@,
            final(self).port == old(self).port,
            final(self).upload == old(self).upload,
            final(self).download == old(self).download,
    {
        self.connections = self.connections.saturating_sub(1);
    }

    /// Bytes sent from the local client into the tunnel
    pub fn add_upload(&mut self, bytes: u64)
        requires
            old(self).upload + bytes <= u64::MAX,
        ensures
            final(self).upload == old(self).upload + bytes,
            final(self).status@ == old(self).status@,
            final(self).port == old(self).port,
            final(self).connections == old(self).connections,
            final(self).download == old(self).download,
    {
        self.upload = self.upload + bytes;
    }

    /// Bytes delivered from the tunnel to the local client
    pub fn add_download(&mut self, bytes: u64)
        requires
            old(self).download + bytes <= u64::MAX,
        ensures
            final(self).download == old(self).download + bytes,
            final(self).status@ == old(self).status@,
            final(self).port == old(self).port,
            final(self).connections == old(self).connections,
            final(self).upload == old(self).upload,
    {
        self.download = self.download + bytes;
    }
}

/// Starting the server is refused while it runs
pub fn server_start_check(status: ConnectionStatus) -> (r: Result<(), String>)
    ensures
        status == ConnectionStatus::Connected ==> (r matches Err(m) && m@ == "服务已在运行"@),
        status != ConnectionStatus::Connected ==> r is Ok,
{
    if status == ConnectionStatus::Connected {
        Err("服务已在运行".to_string())
    } else {
        Ok(())
    }
}

/// Whether the server came up: it did when its status reached `Connected`; else the
/// recorded error, or a generic failure message
pub fn server_start_outcome(status: ConnectionStatus, error: Option<String>) -> (r: Result<(), String>)
    ensures
        status == ConnectionStatus::Connected ==> r is Ok,
        status != ConnectionStatus::Connected ==> (r matches Err(m) && m@ == match error {
            Some(e) => e@,
            None => "启动失败"@,
        }),
{
    if status == ConnectionStatus::Connected {
        Ok(())
    } else {
        match error {
            Some(e) => Err(e),
            None => Err("启动失败".to_string()),
        }
    }
}

/// Starting the client is refused while it is connected
pub fn client_start_check(status: ConnectionStatus) -> (r: Result<(), String>)
    ensures
        status == ConnectionStatus::Connected ==> (r matches Err(m) && m@ == "客户端已在运行"@),
        status != ConnectionStatus::Connected ==> r is Ok,
{
    if status == ConnectionStatus::Connected {
        Err("客户端已在运行".to_string())
    } else {
        Ok(())
    }
}

/// Whether the client came up: it did when its status reached `Connected`
pub fn client_start_outcome(status: ConnectionStatus) -> (r: Result<(), String>)
    ensures
        status == ConnectionStatus::Connected ==> r is Ok,
        status != ConnectionStatus::Connected ==> (r matches Err(m) && m@ == "连接失败"@),
{
    if status == ConnectionStatus::Connected {
        Ok(())
    } else {
        Err("连接失败".to_string())
    }
}

/// Longest wait for a tunnel, in polls (100 ms apart)
pub const TUNNEL_WAIT_LIMIT: u32 = 50;

/// One more poll for a tunnel that is not there yet.
#[derive(Debug, Clone, Copy, PartialEq, Eq, Structural)]
pub struct TunnelWait {
    /// Polls so far
    pub attempts: u32,
    /// Whether to log the wait (every tenth poll)
    pub log: bool,
    /// Whether to give up
    pub timed_out: bool,
}

/// Both ends of the tunnel treat a heartbeat, data and a close alike, and a heartbeat
/// is answered with the acknowledgement frame: type `HeartbeatAck`, channel 0, no
/// payload (never with another heartbeat).
pub proof fn lemma_heartbeat_acknowledged(f: FrameView)
    ensures
        f.frame_type == FrameType::Heartbeat ==> {
            &&& spec_client_action(f) == spec_server_action(f)
            &&& spec_client_action(f) matches TunnelActionView::Reply(r)
            &&& r.frame_type == FrameType::HeartbeatAck
            &&& r.channel_id == 0
            &&& r.payload.len() == 0
        },
        f.frame_type == FrameType::Data ==> spec_client_action(f) == spec_server_action(f)
            && spec_client_action(f) == TunnelActionView::Forward(f.channel_id, f.payload),
        f.frame_type == FrameType::CloseChannel ==> spec_client_action(f) == spec_server_action(f)
            && spec_client_action(f) == TunnelActionView::Close(f.channel_id),
{
}

/// The decision after a poll found no tunnel: count it, log every tenth, give up after
/// more than 50
pub fn tunnel_wait_step(attempts: u32) -> (w: TunnelWait)
    requires
        attempts <= TUNNEL_WAIT_LIMIT,
    ensures
        w.attempts == attempts + 1,
        w.log == ((attempts + 1) % 10 == 0),
        w.timed_out == (attempts + 1 > TUNNEL_WAIT_LIMIT),
{
    let attempts = attempts + 1;
    TunnelWait { attempts, log: attempts % 10 == 0, timed_out: attempts > TUNNEL_WAIT_LIMIT }
}

/// A poll that keeps finding no tunnel times out at the 51st poll, and not before.
pub proof fn lemma_tunnel_wait_times_out(attempts: u32)
    requires
        attempts <= TUNNEL_WAIT_LIMIT,
    ensures
        (attempts + 1 > TUNNEL_WAIT_LIMIT) <==> attempts == TUNNEL_WAIT_LIMIT,
{
}

/// Takes the next channel id and advances the counter
pub fn allocate_channel_id(next: &mut u32) -> (id: u32)
    requires
        *old(next) < u32::MAX,
    ensures
        id == *old(next),
        *final(next) == *old(next) + 1,
{
    let id = *next;
    *next = id + 1;
    id
}

/// What to do with a frame that arrives through the tunnel.
#[derive(Debug)]
pub enum TunnelAction {
    /// Hand the payload to the local side of the channel, if the channel is open
    Forward { channel_id: u32, data: Vec<u8> },
    /// Forget the channel and tell its local side to close
    Close { channel_id: u32 },
    /// Send this frame back through the tunnel
    Reply(Frame),
    /// Connect to the target that the payload names, for this channel
    Open { channel_id: u32, payload: Vec<u8> },
    /// Nothing to do
    Ignore,
}

/// The mathematical content of a tunnel action.
pub enum TunnelActionView {
    Forward(u32, Seq<u8>),
    Close(u32),
    Reply(FrameView),
    Open(u32, Seq<u8>),
    Ignore,
}

impl TunnelAction {
    pub open spec fn view(self) -> TunnelActionView {
        match self {
            TunnelAction::Forward { channel_id, data } => TunnelActionView::Forward(channel_id, data@),
            TunnelAction::Close { channel_id } => TunnelActionView::Close(channel_id),
            TunnelAction::Reply(f) => TunnelActionView::Reply(f@),
            TunnelAction::Open { channel_id, payload } => TunnelActionView::Open(channel_id, payload@),
            TunnelAction::Ignore => TunnelActionView::Ignore,
        }
    }
}

/// The heartbeat acknowledgement frame.
pub open spec fn spec_heartbeat_ack() -> FrameView {
    FrameView { frame_type: FrameType::HeartbeatAck, channel_id: 0, payload: Seq::empty() }
}

/// How the tunnel server treats a frame from its client.
pub open spec fn spec_server_action(f: FrameView) -> TunnelActionView {
    match f.frame_type {
        FrameType::Data => TunnelActionView::Forward(f.channel_id, f.payload),
        FrameType::CloseChannel => TunnelActionView::Close(f.channel_id),
        FrameType::Heartbeat => TunnelActionView::Reply(spec_heartbeat_ack()),
        _ => TunnelActionView::Ignore,
    }
}

/// How the tunnel client treats a frame from its server.
pub open spec fn spec_client_action(f: FrameView) -> TunnelActionView {
    match f.frame_type {
        FrameType::OpenChannel => TunnelActionView::Open(f.channel_id, f.payload),
        FrameType::Data => TunnelActionView::Forward(f.channel_id, f.payload),
        FrameType::CloseChannel => TunnelActionView::Close(f.channel_id),
        FrameType::Heartbeat => TunnelActionView::Reply(spec_heartbeat_ack()),
        _ => TunnelActionView::Ignore,
    }
}

/// What the tunnel server does with a frame from its client: data goes to the channel,
/// a close closes it, a heartbeat is acknowledged, the rest is ignored
pub fn server_tunnel_action(frame: Frame) -> (a: TunnelAction)
    ensures
        a.view() == spec_server_action(frame@),
{
    match frame.frame_type {
        FrameType::Data => TunnelAction::Forward { channel_id: frame.channel_id, data: frame.payload },
        FrameType::CloseChannel => TunnelAction::Close { channel_id: frame.channel_id },
        FrameType::Heartbeat => TunnelAction::Reply(Frame::heartbeat_ack()),
        _ => TunnelAction::Ignore,
    }
}

/// What the tunnel client does with a frame from its server: an open request starts a
/// connection, data goes to the channel, a close closes it, a heartbeat is
/// acknowledged, the rest is ignored
pub fn client_tunnel_action(frame: Frame) -> (a: TunnelAction)
    ensures
        a.view() == spec_client_action(frame@),
{
    match frame.frame_type {
        FrameType::OpenChannel => TunnelAction::Open {
            channel_id: frame.channel_id,
            payload: frame.payload,
        },
        FrameType::Data => TunnelAction::Forward { channel_id: frame.channel_id, data: frame.payload },
        FrameType::CloseChannel => TunnelAction::Close { channel_id: frame.channel_id },
        FrameType::Heartbeat => TunnelAction::Reply(Frame::heartbeat_ack()),
        _ => TunnelAction::Ignore,
    }
}

/// Whether a character is white space in Unicode (`char::is_whitespace`).
pub open spec fn is_white_space(c: char) -> bool {
    let u = c as u32;
    ||| 0x09 <= u <= 0x0D
    ||| u == 0x20
    ||| u == 0x85
    ||| u == 0xA0
    ||| u == 0x1680
    ||| 0x2000 <= u <= 0x200A
    ||| u == 0x2028
    ||| u == 0x2029
    ||| u == 0x202F
    ||| u == 0x205F
    ||| u == 0x3000
}

/// The text without its leading white space.
pub open spec fn trim_start(s: Seq<char>) -> Seq<char>
    decreases s.len(),
{
    if s.len() > 0 && is_white_space(s[0]) {
        trim_start(s.drop_first())
    } else {
        s
    }
}

/// The text without its trailing white space.
pub open spec fn trim_end(s: Seq<char>) -> Seq<char>
    decreases s.len(),
{
    if s.len() > 0 && is_white_space(s.last()) {
        trim_end(s.drop_last())
    } else {
        s
    }
}

/// The text without leading and trailing white space (`str::trim`).
pub open spec fn spec_trim(s: Seq<char>) -> Seq<char> {
    trim_end(trim_start(s))
}

pub open spec fn is_decimal_digit(c: char) -> bool {
    '0' <= c <= '9'
}

/// The value of a string of decimal digits.
pub open spec fn digits_value(d: Seq<char>) -> int
    decreases d.len(),
{
    if d.len() == 0 {
        0
    } else {
        digits_value(d.drop_last()) * 10 + (d.last() as int - 48)
    }
}

/// What `str::parse::<u16>` accepts: an optional `+`, then one or more decimal digits
/// whose value fits 16 bits.
pub open spec fn spec_parse_u16(p: Seq<char>) -> Option<u16> {
    spec_parse_digits(unsigned_digits(p))
}

/// The digits of a number text: the text without a leading `+`.
pub open spec fn unsigned_digits(p: Seq<char>) -> Seq<char> {
    if p.len() > 0 && p[0] == '+' {
        p.drop_first()
    } else {
        p
    }
}

/// The 16-bit value of one or more decimal digits, if it fits.
pub open spec fn spec_parse_digits(d: Seq<char>) -> Option<u16> {
    if d.len() > 0 && (forall|i: int| 0 <= i < d.len() ==> is_decimal_digit(#[trigger] d[i]))
        && digits_value(d) <= 65535 {
        Some(digits_value(d) as u16)
    } else {
        None
    }
}

/// The pieces of a text between commas (`str::split(',')`): one more piece than there are
/// commas.
pub open spec fn split_commas(s: Seq<char>) -> Seq<Seq<char>>
    decreases s.len(),
{
    if s.len() == 0 {
        seq![Seq::empty()]
    } else {
        let p = split_commas(s.drop_last());
        if s.last() == ',' {
            p.push(Seq::empty())
        } else {
            p.update(p.len() - 1, p.last().push(s.last()))
        }
    }
}

/// The ports that the pieces name, in order, skipping pieces that are no port.
pub open spec fn ports_of_pieces(pieces: Seq<Seq<char>>) -> Seq<u16>
    decreases pieces.len(),
{
    if pieces.len() == 0 {
        Seq::empty()
    } else {
        let rest = ports_of_pieces(pieces.drop_last());
        match spec_parse_u16(spec_trim(pieces.last())) {
            Some(p) => rest.push(p),
            None => rest,
        }
    }
}

/// The forward ports of a comma-separated list: each piece trimmed and parsed, the
/// pieces that are no port left out.
pub open spec fn spec_forward_ports(s: Seq<char>) -> Seq<u16> {
    ports_of_pieces(split_commas(s))
}

proof fn lemma_split_commas_nonempty(s: Seq<char>)
    ensures
        split_commas(s).len() >= 1,
    decreases s.len(),
{
    if s.len() > 0 {
        lemma_split_commas_nonempty(s.drop_last());
    }
}

/// Whether a character is white space in Unicode
pub fn is_white_space_char(c: char) -> (b: bool)
    ensures
        b == is_white_space(c),
{
    let u = c as u32;
    (0x09 <= u && u <= 0x0D) || u == 0x20 || u == 0x85 || u == 0xA0 || u == 0x1680 || (0x2000 <= u
        && u <= 0x200A) || u == 0x2028 || u == 0x2029 || u == 0x202F || u == 0x205F || u == 0x3000
}

/// The bounds of the trimmed text of the characters `a..b` of `s`
fn trim_range(s: &str, a: usize, b: usize) -> (r: (usize, usize))
    requires
        a <= b <= s@.len(),
    ensures
        a <= r.0 <= r.1 <= b,
        s@.subrange(r.0 as int, r.1 as int) == spec_trim(s@.subrange(a as int, b as int)),
{
    let mut lo = a;
    while lo < b && is_white_space_char(s.get_char(lo))
        invariant
            a <= lo <= b <= s@.len(),
            trim_start(s@.subrange(a as int, b as int)) == trim_start(s@.subrange(lo as int, b as int)),
        decreases b - lo,
    {
        assert(s@.subrange(lo as int, b as int).drop_first() =~= s@.subrange(lo + 1, b as int));
        lo = lo + 1;
    }
    let mut hi = b;
    while hi > lo && is_white_space_char(s.get_char(hi - 1))
        invariant
            a <= lo <= hi <= b <= s@.len(),
            trim_start(s@.subrange(a as int, b as int)) == s@.subrange(lo as int, b as int),
            trim_end(s@.subrange(lo as int, b as int)) == trim_end(s@.subrange(lo as int, hi as int)),
        decreases hi - lo,
    {
        assert(s@.subrange(lo as int, hi as int).drop_last() =~= s@.subrange(lo as int, hi - 1));
        hi = hi - 1;
    }
    (lo, hi)
}

/// `str::parse::<u16>` of the characters `a..b` of `s`
fn parse_u16_range(s: &str, a: usize, b: usize) -> (r: Option<u16>)
    requires
        a <= b <= s@.len(),
    ensures
        r == spec_parse_u16(s@.subrange(a as int, b as int)),
{
    let ghost p = s@.subrange(a as int, b as int);
    let mut start = a;
    if a < b && s.get_char(a) == '+' {
        start = a + 1;
        assert(p.drop_first() =~= s@.subrange(start as int, b as int));
    }
    let ghost d = s@.subrange(start as int, b as int);
    assert(d == unsigned_digits(p));
    if start == b {
        return None;
    }
    let mut value: u32 = 0;
    let mut i = start;
    while i < b
        invariant
            a <= start <= i <= b <= s@.len(),
            d == s@.subrange(start as int, b as int),
            p == s@.subrange(a as int, b as int),
            d == unsigned_digits(p),
            forall|j: int| start <= j < i ==> is_decimal_digit(#[trigger] s@[j]),
            value == digits_value(s@.subrange(start as int, i as int)),
            value <= 65535,
        decreases b - i,
    {
        let c = s.get_char(i);
        if !('0' <= c && c <= '9') {
            assert(d[i - start] == c);
            assert(!is_decimal_digit(d[i - start]));
            assert(!(forall|j: int| 0 <= j < d.len() ==> is_decimal_digit(#[trigger] d[j])));
            return None;
        }
        let digit = c as u32 - 48;
        assert(s@.subrange(start as int, i + 1).drop_last() =~= s@.subrange(start as int, i as int));
        let next = value * 10 + digit;
        if next > 65535 {
            proof {
                assert(d.subrange(0, i + 1 - start) =~= s@.subrange(start as int, i + 1));
                if forall|j: int| 0 <= j < d.len() ==> is_decimal_digit(#[trigger] d[j]) {
                    lemma_digits_value_grows(d, (i + 1 - start) as int);
                    assert(digits_value(d) > 65535);
                }
                assert(spec_parse_digits(d) is None);
            }
            return None;
        }
        value = next;
        i = i + 1;
    }
    assert(d =~= s@.subrange(start as int, i as int));
    Some(value as u16)
}

/// A prefix of a digit string never has a larger value than the whole string.
proof fn lemma_digits_value_grows(d: Seq<char>, k: int)
    requires
        0 <= k <= d.len(),
        forall|i: int| 0 <= i < d.len() ==> is_decimal_digit(#[trigger] d[i]),
    ensures
        digits_value(d.subrange(0, k)) <= digits_value(d),
    decreases d.len() - k,
{
    if k < d.len() {
        lemma_digits_value_grows(d, k + 1);
        assert(d.subrange(0, k + 1).drop_last() =~= d.subrange(0, k));
        assert(is_decimal_digit(d[k]));
        lemma_digits_value_nonneg(d.subrange(0, k));
    } else {
        assert(d.subrange(0, k) =~= d);
    }
}

proof fn lemma_digits_value_nonneg(d: Seq<char>)
    requires
        forall|i: int| 0 <= i < d.len() ==> is_decimal_digit(#[trigger] d[i]),
    ensures
        digits_value(d) >= 0,
    decreases d.len(),
{
    if d.len() > 0 {
        lemma_digits_value_nonneg(d.drop_last());
    }
}

/// The forward ports of a comma-separated list such as `"1080,3389"`: each piece is
/// trimmed and parsed as a port; pieces that are no port are skipped
pub fn parse_forward_ports(forward: &str) -> (ports: Vec<u16>)
    ensures
        ports@ == spec_forward_ports(forward@),
{
    let n = forward.unicode_len();
    let mut ports: Vec<u16> = Vec::new();
    let mut start: usize = 0;
    let mut i: usize = 0;
    while i < n
        invariant
            n == forward@.len(),
            start <= i <= n,
            split_commas(forward@.subrange(0, i as int)).len() >= 1,
            ports@ == ports_of_pieces(split_commas(forward@.subrange(0, i as int)).drop_last()),
            split_commas(forward@.subrange(0, i as int)).last() == forward@.subrange(start as int, i as int),
        decreases n - i,
    {
        let c = forward.get_char(i);
        let ghost pre = forward@.subrange(0, i as int);
        let ghost post = forward@.subrange(0, i + 1);
        assert(post.drop_last() =~= pre);
        assert(post.last() == c);
        proof {
            lemma_split_commas_nonempty(pre);
        }
        if c == ',' {
            let (lo, hi) = trim_range(forward, start, i);
            match parse_u16_range(forward, lo, hi) {
                Some(p) => ports.push(p),
                None => {},
            }
            assert(split_commas(post).drop_last() =~= split_commas(pre));
            start = i + 1;
        } else {
            assert(split_commas(post).drop_last() =~= split_commas(pre).drop_last());
            assert(forward@.subrange(start as int, i + 1) =~= forward@.subrange(start as int, i as int).push(c));
        }
        i = i + 1;
        assert(forward@.subrange(start as int, i as int) == split_commas(forward@.subrange(0, i as int)).last());
    }
    let (lo, hi) = trim_range(forward, start, n);
    match parse_u16_range(forward, lo, hi) {
        Some(p) => ports.push(p),
        None => {},
    }
    assert(forward@.subrange(0, n as int) =~= forward@);
    ports
}

} // verus!
