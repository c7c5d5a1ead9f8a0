use vstd::prelude::*;

use crate::config::Socks5Config;
use crate::text::{format_ipv4, ipv4_text, utf8_lossy, utf8_lossy_text};

verus! {

#[derive(Debug, PartialEq, Eq, Clone)]
pub enum Socks5Error {
    BindFailed(String),
    InvalidVersion,
    NoAcceptableMethod,
    AuthFailed,
    UnsupportedCommand,
    UnsupportedAddressType,
}

/// Size of the buffer that every message of a SOCKS5 connection is read into.
pub const SOCKS5_BUFFER_SIZE: usize = 257;

/// SOCKS5 proxy server
pub struct Socks5Proxy {
    config: Socks5Config,
}

impl Socks5Proxy {
    pub fn new(config: Socks5Config) -> (p: Self)
        ensures
            p.config() == config,
    {
        Socks5Proxy { config }
    }

    pub closed spec fn config(&self) -> Socks5Config {
        self.config
    }

    /// The configuration the proxy was made with
    pub fn get_config(&self) -> (c: &Socks5Config)
        ensures
            *c == self.config(),
    {
        &self.config
    }

    /// A fresh session for one client connection, under this proxy's configuration
    pub fn session(&self) -> (s: Socks5Session)
        ensures
            s@ == Socks5Session::spec_initial(self.config()),
    {
        Socks5Session::new(&self.config)
    }
}

/// Where a server-side SOCKS5 session stands.
#[derive(Debug, Clone, Copy, PartialEq, Eq, Structural)]
pub enum Socks5Phase {
    /// Waiting for the client greeting (version and methods)
    Greeting,
    /// Waiting for the username/password sub-negotiation
    Auth,
    /// Waiting for the CONNECT request
    Request,
    /// The session has ended, by success or failure
    Finished,
}

/// What a message leads to.
#[derive(Debug)]
pub enum Socks5Outcome {
    /// The session goes on with the next message
    Continue,
    /// The session ends with this error (after the reply, if any, is sent)
    Failed(Socks5Error),
    /// The client asked to connect to this target; the success reply is to be sent
    Connect { target: String, port: u16 },
}

/// The reply to send (if any) and what the message leads to.
#[derive(Debug)]
pub struct Socks5Step {
    pub reply: Option<Vec<u8>>,
    pub outcome: Socks5Outcome,
}

/// The mathematical content of an outcome.
pub enum Socks5OutcomeView {
    Continue,
    Failed(Socks5Error),
    Connect(Seq<char>, u16),
}

/// The mathematical content of a step, with the phase it leads to.
pub struct Socks5StepView {
    pub reply: Option<Seq<u8>>,
    pub outcome: Socks5OutcomeView,
    pub next: Socks5Phase,
}

impl Socks5Step {
    pub open spec fn view_with(self, next: Socks5Phase) -> Socks5StepView {
        Socks5StepView {
            reply: match self.reply {
                Some(r) => Some(r@),
                None => None,
            },
            outcome: match self.outcome {
                Socks5Outcome::Continue => Socks5OutcomeView::Continue,
                Socks5Outcome::Failed(e) => Socks5OutcomeView::Failed(e),
                Socks5Outcome::Connect { target, port } => Socks5OutcomeView::Connect(target@, port),
            },
            next,
        }
    }
}

/// The state of a session: phase, read buffer, whether username/password
/// authentication is required, and the expected credentials.
pub struct Socks5SessionView {
    pub phase: Socks5Phase,
    pub buf: Seq<u8>,
    pub requires_auth: bool,
    pub username: Seq<char>,
    pub password: Seq<char>,
}

/// The ten-byte reply `[5, code, 0, 1, 0, 0, 0, 0, 0, 0]`.
pub open spec fn spec_reply(code: u8) -> Seq<u8> {
    seq![5u8, code, 0u8, 1u8, 0u8, 0u8, 0u8, 0u8, 0u8, 0u8]
}

/// A big-endian 16-bit port.
pub open spec fn spec_port(hi: u8, lo: u8) -> u16 {
    (hi * 256 + lo) as u16
}

/// The buffer after a read of `data` into its front; what lies behind stays.
pub open spec fn spec_filled(buf: Seq<u8>, data: Seq<u8>) -> Seq<u8> {
    data + buf.subrange(data.len() as int, buf.len() as int)
}

/// The method the server picks from the client's list.
pub open spec fn spec_method(requires_auth: bool, methods: Seq<u8>) -> u8 {
    if requires_auth {
        if methods.contains(0x02) {
            0x02
        } else {
            0xFF
        }
    } else {
        0x00
    }
}

pub open spec fn spec_step(reply: Option<Seq<u8>>, outcome: Socks5OutcomeView, next: Socks5Phase) -> Socks5StepView {
    Socks5StepView { reply, outcome, next }
}

pub open spec fn spec_fail(reply: Option<Seq<u8>>, e: Socks5Error) -> Socks5StepView {
    spec_step(reply, Socks5OutcomeView::Failed(e), Socks5Phase::Finished)
}

/// The answer to a greeting of `n` bytes, read into `b`.
pub open spec fn spec_greeting(b: Seq<u8>, n: int, requires_auth: bool) -> Socks5StepView {
    if n < 2 || b[0] != 0x05 {
        spec_fail(None, Socks5Error::InvalidVersion)
    } else if n < 2 + b[1] {
        spec_fail(None, Socks5Error::NoAcceptableMethod)
    } else {
        let m = spec_method(requires_auth, b.subrange(2, 2 + b[1]));
        let reply = Some(seq![0x05u8, m]);
        if m == 0xFF {
            spec_fail(reply, Socks5Error::NoAcceptableMethod)
        } else if m == 0x02 {
            spec_step(reply, Socks5OutcomeView::Continue, Socks5Phase::Auth)
        } else {
            spec_step(reply, Socks5OutcomeView::Continue, Socks5Phase::Request)
        }
    }
}

/// Whether the credentials of an authentication message of `n` bytes, read into `b`,
/// lie within the buffer (the lengths are read before they are checked).
pub open spec fn spec_auth_in_bounds(b: Seq<u8>, n: int) -> bool {
    (n >= 2 && b[0] == 0x01 && n >= 2 + b[1]) ==> (2 + b[1] < 257 && 3 + b[1] + b[2 + b[1]] <= 257)
}

/// The answer to an authentication message of `n` bytes, read into `b`.
pub open spec fn spec_auth(b: Seq<u8>, n: int, username: Seq<char>, password: Seq<char>) -> Socks5StepView {
    if n < 2 || b[0] != 0x01 {
        spec_fail(None, Socks5Error::AuthFailed)
    } else if n < 2 + b[1] {
        spec_fail(None, Socks5Error::AuthFailed)
    } else {
        let ulen = b[1] as int;
        let plen = b[2 + ulen] as int;
        let user = utf8_lossy_text(b.subrange(2, 2 + ulen));
        let pass = utf8_lossy_text(b.subrange(3 + ulen, 3 + ulen + plen));
        if user != username || pass != password {
            spec_fail(Some(seq![0x01u8, 0x01u8]), Socks5Error::AuthFailed)
        } else {
            spec_step(Some(seq![0x01u8, 0x00u8]), Socks5OutcomeView::Continue, Socks5Phase::Request)
        }
    }
}

/// The answer to a CONNECT request of `n` bytes, read into `b`.
pub open spec fn spec_request(b: Seq<u8>, n: int) -> Socks5StepView {
    if n < 4 || b[0] != 0x05 {
        spec_fail(None, Socks5Error::InvalidVersion)
    } else if b[1] != 0x01 {
        spec_fail(Some(spec_reply(0x07)), Socks5Error::UnsupportedCommand)
    } else if b[3] == 0x01 {
        if n < 10 {
            spec_fail(None, Socks5Error::UnsupportedAddressType)
        } else {
            spec_step(
                Some(spec_reply(0x00)),
                Socks5OutcomeView::Connect(ipv4_text(b[4], b[5], b[6], b[7]), spec_port(b[8], b[9])),
                Socks5Phase::Finished,
            )
        }
    } else if b[3] == 0x03 {
        if n < 5 {
            spec_fail(None, Socks5Error::UnsupportedAddressType)
        } else if n < 5 + b[4] + 2 {
            spec_fail(None, Socks5Error::UnsupportedAddressType)
        } else {
            let dlen = b[4] as int;
            spec_step(
                Some(spec_reply(0x00)),
                Socks5OutcomeView::Connect(
                    utf8_lossy_text(b.subrange(5, 5 + dlen)),
                    spec_port(b[5 + dlen], b[6 + dlen]),
                ),
                Socks5Phase::Finished,
            )
        }
    } else if b[3] == 0x04 {
        spec_fail(Some(spec_reply(0x08)), Socks5Error::UnsupportedAddressType)
    } else {
        spec_fail(None, Socks5Error::UnsupportedAddressType)
    }
}

/// Whether a session accepts `data` as its next message without reading outside its
/// buffer.
pub open spec fn spec_accepts(s: Socks5SessionView, data: Seq<u8>) -> bool {
    &&& s.phase != Socks5Phase::Finished
    &&& data.len() <= 257
    &&& s.phase == Socks5Phase::Auth ==> spec_auth_in_bounds(spec_filled(s.buf, data), data.len() as int)
}

/// The answer of a session to its next message `data`.
pub open spec fn spec_on_read(s: Socks5SessionView, data: Seq<u8>) -> Socks5StepView {
    let b = spec_filled(s.buf, data);
    let n = data.len() as int;
    match s.phase {
        Socks5Phase::Greeting => spec_greeting(b, n, s.requires_auth),
        Socks5Phase::Auth => spec_auth(b, n, s.username, s.password),
        _ => spec_request(b, n),
    }
}

/// Server side of one SOCKS5 connection: it reads each message into one 257-byte
/// buffer, as the connection handler does, and decides the reply and what follows.
pub struct Socks5Session {
    phase: Socks5Phase,
    buf: [u8; 257],
    requires_auth: bool,
    username: String,
    password: String,
}

impl View for Socks5Session {
    type V = Socks5SessionView;

    closed spec fn view(&self) -> Socks5SessionView {
        Socks5SessionView {
            phase: self.phase,
            buf: self.buf@,
            requires_auth: self.requires_auth,
            username: self.username@,
            password: self.password@,
        }
    }
}

/// The text of an optional string, empty when absent.
pub open spec fn spec_or_empty(o: Option<String>) -> Seq<char> {
    match o {
        Some(s) => s@,
        None => Seq::empty(),
    }
}

fn clone_or_empty(o: &Option<String>) -> (s: String)
    ensures
        s@ == spec_or_empty(*o),
{
    match o {
        Some(s) => s.clone(),
        None => String::new(),
    }
}

impl Socks5Session {
    /// A session in the greeting phase with a zeroed buffer; authentication is required
    /// when both a username and a password are configured.
    pub open spec fn spec_initial(config: Socks5Config) -> Socks5SessionView {
        Socks5SessionView {
            phase: Socks5Phase::Greeting,
            buf: Seq::new(257, |i: int| 0u8),
            requires_auth: config.username is Some && config.password is Some,
            username: spec_or_empty(config.username),
            password: spec_or_empty(config.password),
        }
    }

    pub fn new(config: &Socks5Config) -> (s: Self)
        ensures
            s@ == Self::spec_initial(*config),
    {
        let buf = [0u8; 257];
        assert(buf@ =~= Seq::new(257, |i: int| 0u8));
        Socks5Session {
            phase: Socks5Phase::Greeting,
            buf,
            requires_auth: config.username.is_some() && config.password.is_some(),
            username: clone_or_empty(&config.username),
            password: clone_or_empty(&config.password),
        }
    }

    /// The phase the session is in
    pub fn phase(&self) -> (p: Socks5Phase)
        ensures
            p == self@.phase,
    {
        self.phase
    }

    /// Whether `data` can be handed to `on_read`: the session has not finished, the
    /// message fits the buffer, and an authentication message names lengths that stay
    /// inside the buffer.
    pub fn accepts(&self, data: &[u8]) -> (ok: bool)
        ensures
            ok == spec_accepts(self@, data@),
    {
        if self.phase == Socks5Phase::Finished || data.len() > SOCKS5_BUFFER_SIZE {
            return false;
        }
        if self.phase != Socks5Phase::Auth {
            return true;
        }
        let ghost b = spec_filled(self.buf@, data@);
        let n = data.len();
        let b0 = if n > 0 { data[0] } else { self.buf[0] };
        let b1 = if n > 1 { data[1] } else { self.buf[1] };
        assert(b0 == b[0] && b1 == b[1]);
        if !(n >= 2 && b0 == 0x01 && n >= 2 + b1 as usize) {
            return true;
        }
        let ulen = b1 as usize;
        if 2 + ulen >= SOCKS5_BUFFER_SIZE {
            return false;
        }
        let plen = if 2 + ulen < n { data[2 + ulen] } else { self.buf[2 + ulen] };
        assert(plen == b[2 + ulen]);
        3 + ulen + plen as usize <= SOCKS5_BUFFER_SIZE
    }

    /// Reads the next message of the connection and decides the reply and what follows.
    pub fn on_read(&mut self, data: &[u8]) -> (step: Socks5Step)
        requires
            spec_accepts(old(self)@, data@),
        ensures
            final(self)@.buf == spec_filled(old(self)@.buf, data@),
            final(self)@.buf.len() == 257,
            final(self)@.requires_auth == old(self)@.requires_auth,
            final(self)@.username == old(self)@.username,
            final(self)@.password == old(self)@.password,
            step.view_with(final(self)@.phase) == spec_on_read(old(self)@, data@),
    {
        let n = data.len();
        let mut i: usize = 0;
        while i < n
            invariant
                n == data@.len(),
                n <= 257,
                i <= n,
                self@ == (Socks5SessionView { buf: self@.buf, ..old(self)@ }),
                self.buf@ == data@.subrange(0, i as int) + old(self).buf@.subrange(i as int, 257),
            decreases n - i,
        {
            self.buf[i] = data[i];
            i = i + 1;
            assert(self.buf@ =~= data@.subrange(0, i as int) + old(self).buf@.subrange(i as int, 257));
        }
        assert(data@.subrange(0, n as int) =~= data@);
        let step = match self.phase {
            Socks5Phase::Greeting => self.greeting(n),
            Socks5Phase::Auth => self.auth(n),
            _ => self.request(n),
        };
        step
    }

    fn finish(&mut self, reply: Option<Vec<u8>>, e: Socks5Error) -> (step: Socks5Step)
        ensures
            final(self)@ == (Socks5SessionView { phase: Socks5Phase::Finished, ..old(self)@ }),
            step.view_with(final(self)@.phase) == spec_fail(
                match reply {
                    Some(r) => Some(r@),
                    None => None,
                },
                e,
            ),
    {
        self.phase = Socks5Phase::Finished;
        Socks5Step { reply, outcome: Socks5Outcome::Failed(e) }
    }

    fn greeting(&mut self, n: usize) -> (step: Socks5Step)
        requires
            n <= 257,
        ensures
            final(self)@ == (Socks5SessionView { phase: final(self)@.phase, ..old(self)@ }),
            step.view_with(final(self)@.phase) == spec_greeting(
                old(self)@.buf,
                n as int,
                old(self)@.requires_auth,
            ),
    {
        if n < 2 || self.buf[0] != 0x05 {
            return self.finish(None, Socks5Error::InvalidVersion);
        }
        let num_methods = self.buf[1] as usize;
        if n < 2 + num_methods {
            return self.finish(None, Socks5Error::NoAcceptableMethod);
        }
        let selected_method: u8 = if self.requires_auth {
            let mut found = false;
            let mut i: usize = 2;
            while i < 2 + num_methods
                invariant
                    2 <= i <= 2 + num_methods,
                    2 + num_methods <= n <= 257,
                        found == exists|j: int| 2 <= j < i && self.buf@[j] == 0x02,
                decreases 2 + num_methods - i,
            {
                if self.buf[i] == 0x02 {
                    found = true;
                }
                i = i + 1;
            }
            let ghost methods = self.buf@.subrange(2, 2 + num_methods as int);
            assert(found == methods.contains(0x02)) by {
                if found {
                    let j = choose|j: int| 2 <= j < i && self.buf@[j] == 0x02;
                    assert(methods[j - 2] == 0x02);
                } else {
                    assert forall|k: int| 0 <= k < methods.len() implies methods[k] != 0x02 by {
                        assert(methods[k] == self.buf@[k + 2]);
                    }
                }
            }
            if found { 0x02 } else { 0xFF }
        } else {
            0x00
        };
        let mut reply: Vec<u8> = Vec::new();
        reply.push(0x05);
        reply.push(selected_method);
        assert(reply@ =~= seq![0x05u8, selected_method]);
        if selected_method == 0xFF {
            return self.finish(Some(reply), Socks5Error::NoAcceptableMethod);
        }
        if selected_method == 0x02 {
            self.phase = Socks5Phase::Auth;
        } else {
            self.phase = Socks5Phase::Request;
        }
        Socks5Step { reply: Some(reply), outcome: Socks5Outcome::Continue }
    }

    fn auth(&mut self, n: usize) -> (step: Socks5Step)
        requires
            n <= 257,
            spec_auth_in_bounds(old(self)@.buf, n as int),
        ensures
            final(self)@ == (Socks5SessionView { phase: final(self)@.phase, ..old(self)@ }),
            step.view_with(final(self)@.phase) == spec_auth(
                old(self)@.buf,
                n as int,
                old(self)@.username,
                old(self)@.password,
            ),
    {
        if n < 2 || self.buf[0] != 0x01 {
            return self.finish(None, Socks5Error::AuthFailed);
        }
        let ulen = self.buf[1] as usize;
        if n < 2 + ulen {
            return self.finish(None, Socks5Error::AuthFailed);
        }
        let username = utf8_lossy(vstd::slice::slice_subrange(&self.buf, 2, 2 + ulen));
        let plen = self.buf[2 + ulen] as usize;
        let password = utf8_lossy(
            vstd::slice::slice_subrange(&self.buf, 3 + ulen, 3 + ulen + plen),
        );
        if username != self.username || password != self.password {
            let mut reply: Vec<u8> = Vec::new();
            reply.push(0x01);
            reply.push(0x01);
            assert(reply@ =~= seq![0x01u8, 0x01u8]);
            return self.finish(Some(reply), Socks5Error::AuthFailed);
        }
        let mut reply: Vec<u8> = Vec::new();
        reply.push(0x01);
        reply.push(0x00);
        assert(reply@ =~= seq![0x01u8, 0x00u8]);
        self.phase = Socks5Phase::Request;
        Socks5Step { reply: Some(reply), outcome: Socks5Outcome::Continue }
    }

    fn request(&mut self, n: usize) -> (step: Socks5Step)
        requires
            n <= 257,
        ensures
            final(self)@ == (Socks5SessionView { phase: Socks5Phase::Finished, ..old(self)@ }),
            step.view_with(final(self)@.phase) == spec_request(old(self)@.buf, n as int),
    {
        if n < 4 || self.buf[0] != 0x05 {
            return self.finish(None, Socks5Error::InvalidVersion);
        }
        let cmd = self.buf[1];
        if cmd != 0x01 {
            return self.finish(Some(reply_bytes(0x07)), Socks5Error::UnsupportedCommand);
        }
        let atyp = self.buf[3];
        if atyp == 0x01 {
            if n < 10 {
                return self.finish(None, Socks5Error::UnsupportedAddressType);
            }
            let target = format_ipv4(self.buf[4], self.buf[5], self.buf[6], self.buf[7]);
            let port = port_from_be(self.buf[8], self.buf[9]);
            self.phase = Socks5Phase::Finished;
            Socks5Step { reply: Some(reply_bytes(0x00)), outcome: Socks5Outcome::Connect { target, port } }
        } else if atyp == 0x03 {
            if n < 5 {
                return self.finish(None, Socks5Error::UnsupportedAddressType);
            }
            let domain_len = self.buf[4] as usize;
            if n < 5 + domain_len + 2 {
                return self.finish(None, Socks5Error::UnsupportedAddressType);
            }
            let target = utf8_lossy(vstd::slice::slice_subrange(&self.buf, 5, 5 + domain_len));
            let port = port_from_be(self.buf[5 + domain_len], self.buf[5 + domain_len + 1]);
            self.phase = Socks5Phase::Finished;
            Socks5Step { reply: Some(reply_bytes(0x00)), outcome: Socks5Outcome::Connect { target, port } }
        } else if atyp == 0x04 {
            self.finish(Some(reply_bytes(0x08)), Socks5Error::UnsupportedAddressType)
        } else {
            self.finish(None, Socks5Error::UnsupportedAddressType)
        }
    }
}

/// Username/password authentication checks both credentials: for a session waiting for
/// the sub-negotiation and a well-formed message (version 1, the username length and
/// the username present), the client is let through, with the reply `[1, 0]` and on to
/// the CONNECT request, exactly when the decoded username equals the configured
/// username and the decoded password equals the configured password.  Otherwise the
/// reply is `[1, 1]`, the session fails with `AuthFailed` and finishes; in particular a
/// wrong username fails even with the right password.
pub proof fn lemma_auth_checks_both_credentials(s: Socks5SessionView, data: Seq<u8>)
    requires
        s.phase == Socks5Phase::Auth,
        data.len() >= 2,
        data[0] == 0x01,
        data.len() >= 2 + data[1],
        spec_accepts(s, data),
    ensures
        ({
            let b = spec_filled(s.buf, data);
            let ulen = data[1] as int;
            let plen = b[2 + ulen] as int;
            let user = utf8_lossy_text(b.subrange(2, 2 + ulen));
            let pass = utf8_lossy_text(b.subrange(3 + ulen, 3 + ulen + plen));
            let step = spec_on_read(s, data);
            if user == s.username && pass == s.password {
                &&& step.reply == Some(seq![0x01u8, 0x00u8])
                &&& step.outcome is Continue
                &&& step.next == Socks5Phase::Request
            } else {
                &&& step.reply == Some(seq![0x01u8, 0x01u8])
                &&& step.outcome == Socks5OutcomeView::Failed(Socks5Error::AuthFailed)
                &&& step.next == Socks5Phase::Finished
            }
        }),
{
    let b = spec_filled(s.buf, data);
    assert(b[0] == data[0] && b[1] == data[1]);
}

/// The ten-byte reply `[5, code, 0, 1, 0, 0, 0, 0, 0, 0]`
pub fn reply_bytes(code: u8) -> (r: Vec<u8>)
    ensures
        r@ == spec_reply(code),
{
    let mut r: Vec<u8> = Vec::new();
    r.push(0x05);
    r.push(code);
    r.push(0x00);
    r.push(0x01);
    r.push(0);
    r.push(0);
    r.push(0);
    r.push(0);
    r.push(0);
    r.push(0);
    assert(r@ =~= spec_reply(code));
    r
}

/// A big-endian 16-bit port from its two bytes
pub fn port_from_be(hi: u8, lo: u8) -> (p: u16)
    ensures
        p == spec_port(hi, lo),
{
    hi as u16 * 256 + lo as u16
}

} // verus!
