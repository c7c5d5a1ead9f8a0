use vstd::prelude::*;
use vstd::bytes::{spec_u32_from_le_bytes, spec_u32_to_le_bytes, u32_from_le_bytes, u32_to_le_bytes};
use vstd::slice::{slice_subrange, slice_to_vec};
use vstd::string::StringSliceAdditionalSpecFns;

verus! {

/// Protocol magic header: "PFWD"
pub const FRAME_HEAD: [u8; 4] = [0x50, 0x46, 0x57, 0x44];

/// Protocol version
pub const PROTOCOL_VERSION: u8 = 1;

/// Maximum frame payload size (1MB)
pub const MAX_FRAME_SIZE: usize = 1048576;

/// Frame header size: HEAD(4) + VERSION(1) + TYPE(1) + CHANNEL(4) + LENGTH(4) = 14
pub const FRAME_HEADER_SIZE: usize = 14;

/// Frame trailer size: CRC32(4)
pub const FRAME_TRAILER_SIZE: usize = 4;

/// The CRC-32 (IEEE) checksum of a byte sequence, as `crc32fast` computes it.
pub uninterp spec fn crc32_checksum(data: Seq<u8>) -> u32;

/// Calls `crc32fast::Hasher` (`new`, `update`, `finalize`) on `data`.
/// Trusted: the result is `crc32_checksum(data)`, a function of the bytes alone.
#[verifier::external_body]
fn calculate_crc32(data: &[u8]) -> (crc: u32)
    ensures
        crc == crc32_checksum(data@),
{
    let mut hasher = crc32fast::Hasher::new();
    hasher.update(data);
    hasher.finalize()
}

/// The four magic bytes that open every frame.
pub open spec fn frame_head() -> Seq<u8> {
    seq![0x50u8, 0x46u8, 0x57u8, 0x44u8]
}

/// The little-endian `u32` that starts at offset `i` of `data`.
pub open spec fn u32_le_at(data: Seq<u8>, i: int) -> u32 {
    spec_u32_from_le_bytes(data.subrange(i, i + 4))
}

/// The 14 header bytes of a frame with the given type, channel and length field.
pub open spec fn spec_header(t: FrameType, channel_id: u32, len: u32) -> Seq<u8> {
    frame_head() + seq![PROTOCOL_VERSION, t.spec_byte()] + spec_u32_to_le_bytes(channel_id)
        + spec_u32_to_le_bytes(len)
}

/// What `Frame::decode` makes of a byte sequence.
pub open spec fn spec_decode(data: Seq<u8>) -> Result<FrameView, FrameError> {
    if data.len() < 18 {
        Err(FrameError::IncompleteFrame)
    } else if data.subrange(0, 4) != frame_head() {
        Err(FrameError::InvalidHeader)
    } else if data[4] != PROTOCOL_VERSION {
        Err(FrameError::InvalidVersion)
    } else {
        match FrameType::spec_from_byte(data[5]) {
            None => Err(FrameError::InvalidHeader),
            Some(t) => {
                let len = u32_le_at(data, 10);
                if len > MAX_FRAME_SIZE {
                    Err(FrameError::FrameTooLarge(len as usize))
                } else if data.len() < 18 + len {
                    Err(FrameError::IncompleteFrame)
                } else if u32_le_at(data, 14 + len) != crc32_checksum(data.subrange(0, 14 + len)) {
                    Err(FrameError::CrcMismatch)
                } else {
                    Ok(
                        FrameView {
                            frame_type: t,
                            channel_id: u32_le_at(data, 6),
                            payload: data.subrange(14, 14 + len),
                        },
                    )
                }
            },
        }
    }
}

/// Frame type: the byte at offset 5 of every frame.
#[derive(Debug, Clone, Copy, PartialEq, Eq, Structural)]
pub enum FrameType {
    /// Data frame for channel communication
    Data,
    /// Open channel request
    OpenChannel,
    /// Close channel notification
    CloseChannel,
    /// Heartbeat/ping frame
    Heartbeat,
    /// Heartbeat response/pong
    HeartbeatAck,
    /// Authentication challenge
    AuthChallenge,
    /// Authentication response
    AuthResponse,
    /// Authentication success
    AuthSuccess,
    /// Authentication failure
    AuthFailure,
    /// Error notification
    Error,
}

/// Errors that frame decoding reports.
#[derive(Debug, Clone, Copy, PartialEq, Eq, Structural)]
pub enum FrameError {
    InvalidHeader,
    InvalidVersion,
    FrameTooLarge(usize),
    InvalidLength,
    CrcMismatch,
    IncompleteFrame,
}

impl FrameType {
    /// The wire byte of each frame type.
    pub open spec fn spec_byte(self) -> u8 {
        match self {
            FrameType::Data => 0x00,
            FrameType::OpenChannel => 0x01,
            FrameType::CloseChannel => 0x02,
            FrameType::Heartbeat => 0x03,
            FrameType::HeartbeatAck => 0x04,
            FrameType::AuthChallenge => 0x10,
            FrameType::AuthResponse => 0x11,
            FrameType::AuthSuccess => 0x12,
            FrameType::AuthFailure => 0x13,
            FrameType::Error => 0xFF,
        }
    }

    /// The frame type that a wire byte names, if any.
    pub open spec fn spec_from_byte(value: u8) -> Option<FrameType> {
        if value == 0x00 {
            Some(FrameType::Data)
        } else if value == 0x01 {
            Some(FrameType::OpenChannel)
        } else if value == 0x02 {
            Some(FrameType::CloseChannel)
        } else if value == 0x03 {
            Some(FrameType::Heartbeat)
        } else if value == 0x04 {
            Some(FrameType::HeartbeatAck)
        } else if value == 0x10 {
            Some(FrameType::AuthChallenge)
        } else if value == 0x11 {
            Some(FrameType::AuthResponse)
        } else if value == 0x12 {
            Some(FrameType::AuthSuccess)
        } else if value == 0x13 {
            Some(FrameType::AuthFailure)
        } else if value == 0xFF {
            Some(FrameType::Error)
        } else {
            None
        }
    }

    /// The wire byte of this frame type.
    pub fn to_byte(self) -> (b: u8)
        ensures
            b == self.spec_byte(),
    {
        match self {
            FrameType::Data => 0x00,
            FrameType::OpenChannel => 0x01,
            FrameType::CloseChannel => 0x02,
            FrameType::Heartbeat => 0x03,
            FrameType::HeartbeatAck => 0x04,
            FrameType::AuthChallenge => 0x10,
            FrameType::AuthResponse => 0x11,
            FrameType::AuthSuccess => 0x12,
            FrameType::AuthFailure => 0x13,
            FrameType::Error => 0xFF,
        }
    }

    /// Reads a frame type from its wire byte; an unknown byte is an invalid header.
    pub fn try_from_byte(value: u8) -> (r: Result<FrameType, FrameError>)
        ensures
            match Self::spec_from_byte(value) {
                Some(t) => r == Ok::<FrameType, FrameError>(t),
                None => r == Err::<FrameType, FrameError>(FrameError::InvalidHeader),
            },
    {
        match value {
            0x00 => Ok(FrameType::Data),
            0x01 => Ok(FrameType::OpenChannel),
            0x02 => Ok(FrameType::CloseChannel),
            0x03 => Ok(FrameType::Heartbeat),
            0x04 => Ok(FrameType::HeartbeatAck),
            0x10 => Ok(FrameType::AuthChallenge),
            0x11 => Ok(FrameType::AuthResponse),
            0x12 => Ok(FrameType::AuthSuccess),
            0x13 => Ok(FrameType::AuthFailure),
            0xFF => Ok(FrameType::Error),
            _ => Err(FrameError::InvalidHeader),
        }
    }
}

/// The frame type spelled by a wire byte; other bytes are an invalid header.
pub open spec fn spec_frame_type_result(value: u8) -> Result<FrameType, FrameError> {
    match FrameType::spec_from_byte(value) {
        Some(t) => Ok(t),
        None => Err(FrameError::InvalidHeader),
    }
}

impl TryFrom<u8> for FrameType {
    type Error = FrameError;

    fn try_from(value: u8) -> (r: Result<Self, FrameError>) {
        Self::try_from_byte(value)
    }
}

impl vstd::std_specs::convert::TryFromSpecImpl<u8> for FrameType {
    open spec fn obeys_try_from_spec() -> bool {
        true
    }

    open spec fn try_from_spec(value: u8) -> Result<FrameType, FrameError> {
        spec_frame_type_result(value)
    }
}

/// Reading the byte of a frame type gives the frame type back.
pub proof fn lemma_frame_type_byte_roundtrip(t: FrameType)
    ensures
        FrameType::spec_from_byte(t.spec_byte()) == Some(t),
{
}

/// Decoding the encoding of a frame whose payload is at most `MAX_FRAME_SIZE` bytes
/// gives the frame back, whatever bytes follow the encoding.
pub proof fn lemma_decode_encode(f: FrameView, rest: Seq<u8>)
    requires
        f.payload.len() <= MAX_FRAME_SIZE,
    ensures
        spec_decode(f.spec_encode() + rest) == Ok::<FrameView, FrameError>(f),
{
    lemma_encoding_layout(f, rest);
    let len = f.payload.len() as int;
    let data = f.spec_encode() + rest;
    assert(u32_le_at(data, 10) == len);
    assert(data.subrange(14, 14 + len) =~= f.payload);
}

/// A frame whose payload is longer than `MAX_FRAME_SIZE` (and fits the 32-bit length
/// field) encodes to bytes that decoding refuses as too large.
pub proof fn lemma_decode_encode_too_large(f: FrameView, rest: Seq<u8>)
    requires
        MAX_FRAME_SIZE < f.payload.len() <= u32::MAX,
    ensures
        spec_decode(f.spec_encode() + rest) == Err::<FrameView, FrameError>(
            FrameError::FrameTooLarge(f.payload.len() as usize),
        ),
{
    lemma_encoding_layout(f, rest);
}

/// An encoded frame is 18 bytes longer than its payload, and the length field holds
/// the payload length.
pub proof fn lemma_decode_encode_len(f: FrameView)
    requires
        f.payload.len() <= u32::MAX,
    ensures
        f.spec_encode().len() == 18 + f.payload.len(),
        u32_le_at(f.spec_encode(), 10) == f.payload.len(),
{
    lemma_encoding_layout(f, Seq::empty());
    assert(f.spec_encode() + Seq::<u8>::empty() =~= f.spec_encode());
}

/// The encoding of every frame is its payload with the header before it and the
/// checksum after it: `FRAME_HEADER_SIZE + payload length + FRAME_TRAILER_SIZE`, that is
/// 18 bytes more than the payload.
pub proof fn lemma_encoded_size(f: FrameView)
    ensures
        f.spec_encode().len() == FRAME_HEADER_SIZE + f.payload.len() + FRAME_TRAILER_SIZE,
        f.spec_encode().len() == 18 + f.payload.len(),
{
    vstd::bytes::lemma_auto_spec_u32_to_from_le_bytes();
}

/// Where each field of an encoded frame lies.
proof fn lemma_encoding_layout(f: FrameView, rest: Seq<u8>)
    requires
        f.payload.len() <= u32::MAX,
    ensures
        ({
            let len = f.payload.len() as int;
            let data = f.spec_encode() + rest;
            let body = spec_header(f.frame_type, f.channel_id, len as u32) + f.payload;
            &&& data.len() == 18 + len + rest.len()
            &&& data.subrange(0, 4) == frame_head()
            &&& data[4] == PROTOCOL_VERSION
            &&& data[5] == f.frame_type.spec_byte()
            &&& u32_le_at(data, 6) == f.channel_id
            &&& u32_le_at(data, 10) == len
            &&& data.subrange(0, 14 + len) == body
            &&& u32_le_at(data, 14 + len) == crc32_checksum(body)
        }),
{
    vstd::bytes::lemma_auto_spec_u32_to_from_le_bytes();
    let len = f.payload.len() as int;
    let data = f.spec_encode() + rest;
    let body = spec_header(f.frame_type, f.channel_id, len as u32) + f.payload;
    assert(data.subrange(0, 4) =~= frame_head());
    assert(data.subrange(6, 10) =~= spec_u32_to_le_bytes(f.channel_id));
    assert(data.subrange(10, 14) =~= spec_u32_to_le_bytes(len as u32));
    assert(data.subrange(0, 14 + len) =~= body);
    assert(data.subrange(14 + len, 18 + len) =~= spec_u32_to_le_bytes(crc32_checksum(body)));
}

/// The mathematical content of a frame.
pub struct FrameView {
    pub frame_type: FrameType,
    pub channel_id: u32,
    pub payload: Seq<u8>,
}

/// Protocol frame
#[derive(Debug, Clone)]
pub struct Frame {
    /// Frame type
    pub frame_type: FrameType,
    /// Channel ID (0 for control frames)
    pub channel_id: u32,
    /// Payload data
    pub payload: Vec<u8>,
}

impl FrameView {
    /// The wire form: header, payload, then the CRC-32 of header and payload, little-endian.
    /// The length field holds the payload length truncated to 32 bits.
    pub open spec fn spec_encode(self) -> Seq<u8> {
        let body = spec_header(self.frame_type, self.channel_id, self.payload.len() as u32)
            + self.payload;
        body + spec_u32_to_le_bytes(crc32_checksum(body))
    }
}

impl View for Frame {
    type V = FrameView;

    open spec fn view(&self) -> FrameView {
        FrameView { frame_type: self.frame_type, channel_id: self.channel_id, payload: self.payload@ }
    }
}

impl Frame {
    /// Create a new frame
    pub fn new(frame_type: FrameType, channel_id: u32, payload: Vec<u8>) -> (f: Self)
        ensures
            f.frame_type == frame_type,
            f.channel_id == channel_id,
            f.payload@ == payload@,
    {
        Frame { frame_type, channel_id, payload }
    }

    /// Create a data frame for a channel
    pub fn data(channel_id: u32, payload: Vec<u8>) -> (f: Self)
        ensures
            f@ == (FrameView { frame_type: FrameType::Data, channel_id, payload: payload@ }),
    {
        Self::new(FrameType::Data, channel_id, payload)
    }

    /// Create an open channel request
    pub fn open_channel(channel_id: u32, payload: Vec<u8>) -> (f: Self)
        ensures
            f@ == (FrameView { frame_type: FrameType::OpenChannel, channel_id, payload: payload@ }),
    {
        Self::new(FrameType::OpenChannel, channel_id, payload)
    }

    /// Create a close channel notification
    pub fn close_channel(channel_id: u32) -> (f: Self)
        ensures
            f@ == (FrameView {
                frame_type: FrameType::CloseChannel,
                channel_id,
                payload: Seq::<u8>::empty(),
            }),
    {
        Self::new(FrameType::CloseChannel, channel_id, Vec::new())
    }

    /// Create a heartbeat frame
    pub fn heartbeat() -> (f: Self)
        ensures
            f@ == (FrameView {
                frame_type: FrameType::Heartbeat,
                channel_id: 0,
                payload: Seq::<u8>::empty(),
            }),
    {
        Self::new(FrameType::Heartbeat, 0, Vec::new())
    }

    /// Create a heartbeat acknowledgment
    pub fn heartbeat_ack() -> (f: Self)
        ensures
            f@ == (FrameView {
                frame_type: FrameType::HeartbeatAck,
                channel_id: 0,
                payload: Seq::<u8>::empty(),
            }),
    {
        Self::new(FrameType::HeartbeatAck, 0, Vec::new())
    }

    /// Create an auth challenge frame
    pub fn auth_challenge(nonce: Vec<u8>) -> (f: Self)
        ensures
            f@ == (FrameView { frame_type: FrameType::AuthChallenge, channel_id: 0, payload: nonce@ }),
    {
        Self::new(FrameType::AuthChallenge, 0, nonce)
    }

    /// Create an auth response frame
    pub fn auth_response(response: Vec<u8>) -> (f: Self)
        ensures
            f@ == (FrameView {
                frame_type: FrameType::AuthResponse,
                channel_id: 0,
                payload: response@,
            }),
    {
        Self::new(FrameType::AuthResponse, 0, response)
    }

    /// Create an error frame carrying the UTF-8 bytes of `message`
    pub fn error(message: &str) -> (f: Self)
        ensures
            f@ == (FrameView {
                frame_type: FrameType::Error,
                channel_id: 0,
                payload: message.spec_bytes(),
            }),
    {
        Self::new(FrameType::Error, 0, slice_to_vec(message.as_bytes()))
    }

    /// Get the total encoded size of this frame
    pub fn encoded_size(&self) -> (n: usize)
        requires
            self.payload@.len() <= usize::MAX - 18,
        ensures
            n == self.payload@.len() + 18,
            n == self@.spec_encode().len(),
    {
        proof {
            vstd::bytes::lemma_auto_spec_u32_to_from_le_bytes();
        }
        FRAME_HEADER_SIZE + self.payload.len() + FRAME_TRAILER_SIZE
    }

    /// Encode frame to bytes
    /// Format: [HEAD(4)][VERSION(1)][TYPE(1)][CHANNEL(4)][LENGTH(4)][PAYLOAD(N)][CRC32(4)]
    pub fn encode(&self) -> (out: Vec<u8>)
        ensures
            out@ == self@.spec_encode(),
    {
        let mut buf: Vec<u8> = Vec::new();
        buf.push(FRAME_HEAD[0]);
        buf.push(FRAME_HEAD[1]);
        buf.push(FRAME_HEAD[2]);
        buf.push(FRAME_HEAD[3]);
        buf.push(PROTOCOL_VERSION);
        buf.push(self.frame_type.to_byte());
        let mut channel = u32_to_le_bytes(self.channel_id);
        buf.append(&mut channel);
        #[verifier::truncate]
        let len_field = self.payload.len() as u32;
        let mut len_bytes = u32_to_le_bytes(len_field);
        buf.append(&mut len_bytes);
        let mut payload = self.payload.clone();
        buf.append(&mut payload);
        let crc = calculate_crc32(buf.as_slice());
        let mut crc_bytes = u32_to_le_bytes(crc);
        let ghost body = buf@;
        buf.append(&mut crc_bytes);
        assert(body =~= spec_header(self.frame_type, self.channel_id, self.payload@.len() as u32)
            + self.payload@);
        buf
    }

    /// Decode frame from bytes
    pub fn decode(data: &[u8]) -> (r: Result<Frame, FrameError>)
        ensures
            match r {
                Ok(f) => spec_decode(data@) == Ok::<FrameView, FrameError>(f@),
                Err(e) => spec_decode(data@) == Err::<FrameView, FrameError>(e),
            },
    {
        if data.len() < FRAME_HEADER_SIZE + FRAME_TRAILER_SIZE {
            return Err(FrameError::IncompleteFrame);
        }
        if data[0] != FRAME_HEAD[0] || data[1] != FRAME_HEAD[1] || data[2] != FRAME_HEAD[2]
            || data[3] != FRAME_HEAD[3] {
            assert(data@.subrange(0, 4) != frame_head()) by {
                if data@.subrange(0, 4) == frame_head() {
                    assert(data@.subrange(0, 4)[0] == data@[0]);
                    assert(data@.subrange(0, 4)[1] == data@[1]);
                    assert(data@.subrange(0, 4)[2] == data@[2]);
                    assert(data@.subrange(0, 4)[3] == data@[3]);
                }
            }
            return Err(FrameError::InvalidHeader);
        }
        assert(data@.subrange(0, 4) =~= frame_head());
        let version = data[4];
        if version != PROTOCOL_VERSION {
            return Err(FrameError::InvalidVersion);
        }
        let frame_type = match FrameType::try_from_byte(data[5]) {
            Ok(t) => t,
            Err(e) => {
                return Err(e);
            },
        };
        let channel_id = u32_from_le_bytes(slice_subrange(data, 6, 10));
        let payload_len = u32_from_le_bytes(slice_subrange(data, 10, 14)) as usize;
        if payload_len > MAX_FRAME_SIZE {
            return Err(FrameError::FrameTooLarge(payload_len));
        }
        let total_len = FRAME_HEADER_SIZE + payload_len + FRAME_TRAILER_SIZE;
        if data.len() < total_len {
            return Err(FrameError::IncompleteFrame);
        }
        let expected_crc = u32_from_le_bytes(slice_subrange(data, total_len - 4, total_len));
        let calculated_crc = calculate_crc32(slice_subrange(data, 0, total_len - 4));
        if expected_crc != calculated_crc {
            return Err(FrameError::CrcMismatch);
        }
        let payload = slice_to_vec(slice_subrange(data, FRAME_HEADER_SIZE, FRAME_HEADER_SIZE + payload_len));
        Ok(Frame { frame_type, channel_id, payload })
    }
}

/// Open channel payload
#[derive(Debug, Clone)]
pub struct OpenChannelPayload {
    pub target_ip: String,
    pub target_port: u16,
}

impl OpenChannelPayload {
    pub fn new(target_ip: String, target_port: u16) -> (p: Self)
        ensures
            p.target_ip@ == target_ip@,
            p.target_port == target_port,
    {
        Self { target_ip, target_port }
    }
}

/// Close channel payload
#[derive(Debug, Clone)]
pub struct CloseChannelPayload {
    pub reason: String,
}

impl CloseChannelPayload {
    pub fn new(reason: &str) -> (p: Self)
        ensures
            p.reason@ == reason@,
    {
        Self { reason: reason.to_string() }
    }
}

} // verus!
