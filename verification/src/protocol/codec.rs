use vstd::prelude::*;

use super::frame::{
    spec_decode, u32_le_at, Frame, FrameError, FrameView, FRAME_HEADER_SIZE,
    MAX_FRAME_SIZE,
};

verus! {

/// What the streaming decoder does with a receive buffer: the outcome, and the bytes
/// that stay in the buffer.  Nothing is taken until the buffer holds the whole frame
/// that the header announces; then exactly that many bytes are taken and decoded.
pub open spec fn spec_stream_decode(buf: Seq<u8>) -> (Result<Option<FrameView>, FrameError>, Seq<u8>) {
    if buf.len() < 14 {
        (Ok(None), buf)
    } else {
        let total = 18 + u32_le_at(buf, 10);
        if buf.len() < total {
            (Ok(None), buf)
        } else {
            (
                match spec_decode(buf.subrange(0, total)) {
                    Ok(f) => Ok(Some(f)),
                    Err(e) => Err(e),
                },
                buf.subrange(total, buf.len() as int),
            )
        }
    }
}

/// Frame codec for byte streams
pub struct FrameCodec;

impl FrameCodec {
    pub fn new() -> Self {
        FrameCodec
    }

    /// Takes one frame off the front of `src` once all its bytes have arrived.
    pub fn decode(&mut self, src: &mut Vec<u8>) -> (r: Result<Option<Frame>, FrameError>)
        ensures
            ({
                let (outcome, rest) = spec_stream_decode(old(src)@);
                &&& final(src)@ == rest
                &&& match r {
                    Ok(None) => outcome == Ok::<Option<FrameView>, FrameError>(None),
                    Ok(Some(f)) => outcome == Ok::<Option<FrameView>, FrameError>(Some(f@)),
                    Err(e) => outcome == Err::<Option<FrameView>, FrameError>(e),
                }
            }),
    {
        if src.len() < FRAME_HEADER_SIZE {
            return Ok(None);
        }
        let len_field = vstd::bytes::u32_from_le_bytes(vstd::slice::slice_subrange(src.as_slice(), 10, 14));
        let total_len: u64 = 18 + len_field as u64;
        if (src.len() as u64) < total_len {
            return Ok(None);
        }
        let mut frame_data = src.split_off(total_len as usize);
        std::mem::swap(src, &mut frame_data);
        match Frame::decode(frame_data.as_slice()) {
            Ok(f) => Ok(Some(f)),
            Err(e) => Err(e),
        }
    }

    /// Appends the encoding of `item` to `dst`.
    pub fn encode(&mut self, item: Frame, dst: &mut Vec<u8>) -> (r: Result<(), FrameError>)
        ensures
            r is Ok,
            final(dst)@ == old(dst)@ + item@.spec_encode(),
    {
        let mut encoded = item.encode();
        dst.append(&mut encoded);
        Ok(())
    }
}

impl Default for FrameCodec {
    fn default() -> (c: Self) {
        Self::new()
    }
}

/// A buffer that starts with the encoding of a frame (payload at most `MAX_FRAME_SIZE`)
/// yields that frame, and keeps exactly the bytes that follow the encoding.
pub proof fn lemma_stream_decode_encode(f: FrameView, rest: Seq<u8>)
    requires
        f.payload.len() <= MAX_FRAME_SIZE,
    ensures
        spec_stream_decode(f.spec_encode() + rest) == (
            Ok::<Option<FrameView>, FrameError>(Some(f)),
            rest,
        ),
{
    super::frame::lemma_decode_encode(f, Seq::empty());
    let enc = f.spec_encode();
    let buf = enc + rest;
    vstd::bytes::lemma_auto_spec_u32_to_from_le_bytes();
    assert(enc + Seq::<u8>::empty() =~= enc);
    assert(enc.len() == 18 + f.payload.len()) by {
        super::frame::lemma_decode_encode_len(f);
    }
    assert(buf.subrange(10, 14) =~= enc.subrange(10, 14));
    assert(u32_le_at(buf, 10) == u32_le_at(enc, 10));
    assert(buf.subrange(0, enc.len() as int) =~= enc);
    assert(buf.subrange(enc.len() as int, buf.len() as int) =~= rest);
}

/// The encodings of a sequence of frames, one after the other.
pub open spec fn spec_encode_all(frames: Seq<FrameView>) -> Seq<u8>
    decreases frames.len(),
{
    if frames.len() == 0 {
        Seq::empty()
    } else {
        frames[0].spec_encode() + spec_encode_all(frames.drop_first())
    }
}

/// A stream of encoded frames (payloads at most `MAX_FRAME_SIZE`) is decoded back frame
/// by frame, in order: the first frame comes out and the encodings of the others stay,
/// followed by whatever came after them.
pub proof fn lemma_stream_decodes_in_order(frames: Seq<FrameView>, rest: Seq<u8>)
    requires
        frames.len() > 0,
        forall|i: int| 0 <= i < frames.len() ==> (#[trigger] frames[i]).payload.len() <= MAX_FRAME_SIZE,
    ensures
        spec_stream_decode(spec_encode_all(frames) + rest) == (
            Ok::<Option<FrameView>, FrameError>(Some(frames[0])),
            spec_encode_all(frames.drop_first()) + rest,
        ),
{
    let tail = spec_encode_all(frames.drop_first()) + rest;
    assert(spec_encode_all(frames) + rest =~= frames[0].spec_encode() + tail);
    lemma_stream_decode_encode(frames[0], tail);
}

/// A buffer that holds less than the frame its header announces is left untouched.
pub proof fn lemma_stream_decode_waits(buf: Seq<u8>)
    requires
        buf.len() < 14 || buf.len() < 18 + u32_le_at(buf, 10),
    ensures
        spec_stream_decode(buf) == (Ok::<Option<FrameView>, FrameError>(None), buf),
{
}

} // verus!
