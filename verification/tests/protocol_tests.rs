use port_forward::protocol::codec::FrameCodec;
use port_forward::protocol::frame::{
    CloseChannelPayload, Frame, FrameError, FrameType, OpenChannelPayload, MAX_FRAME_SIZE,
};

#[test]
fn test_frame_encode_decode() {
    let frame = Frame::data(123, b"hello world".to_vec());
    let encoded = frame.encode();
    let decoded = Frame::decode(&encoded).unwrap();

    assert_eq!(decoded.frame_type, FrameType::Data);
    assert_eq!(decoded.channel_id, 123);
    assert_eq!(&decoded.payload[..], b"hello world");
}

#[test]
fn test_heartbeat_frame() {
    let frame = Frame::heartbeat();
    let encoded = frame.encode();
    let decoded = Frame::decode(&encoded).unwrap();

    assert_eq!(decoded.frame_type, FrameType::Heartbeat);
    assert_eq!(decoded.channel_id, 0);
    assert!(decoded.payload.is_empty());
}

#[test]
fn test_crc_mismatch() {
    let frame = Frame::data(1, b"test".to_vec());
    let mut encoded = frame.encode().to_vec();

    // Corrupt the payload
    encoded[20] ^= 0xFF;

    let result = Frame::decode(&encoded);
    assert!(matches!(result, Err(FrameError::CrcMismatch)));
}

#[test]
fn test_codec_roundtrip() {
    let mut codec = FrameCodec::new();
    let frame = Frame::data(42, b"test data".to_vec());

    let mut buf: Vec<u8> = Vec::new();
    codec.encode(frame.clone(), &mut buf).unwrap();

    let decoded = codec.decode(&mut buf).unwrap().unwrap();
    assert_eq!(decoded.frame_type, frame.frame_type);
    assert_eq!(decoded.channel_id, frame.channel_id);
    assert_eq!(decoded.payload, frame.payload);
}

#[test]
fn encoding_layout_is_exact() {
    let frame = Frame::data(0x01020304, vec![0xAA, 0xBB]);
    let encoded = frame.encode();
    assert_eq!(encoded.len(), 20);
    assert_eq!(frame.encoded_size(), 20);
    assert_eq!(&encoded[..14], &[0x50, 0x46, 0x57, 0x44, 1, 0x00, 0x04, 0x03, 0x02, 0x01, 2, 0, 0, 0]);
    assert_eq!(&encoded[14..16], &[0xAA, 0xBB]);
    let crc = crc32fast::hash(&encoded[..16]);
    assert_eq!(&encoded[16..], &crc.to_le_bytes());
}

#[test]
fn every_frame_type_roundtrips() {
    let types = [
        (FrameType::Data, 0x00u8),
        (FrameType::OpenChannel, 0x01),
        (FrameType::CloseChannel, 0x02),
        (FrameType::Heartbeat, 0x03),
        (FrameType::HeartbeatAck, 0x04),
        (FrameType::AuthChallenge, 0x10),
        (FrameType::AuthResponse, 0x11),
        (FrameType::AuthSuccess, 0x12),
        (FrameType::AuthFailure, 0x13),
        (FrameType::Error, 0xFF),
    ];
    for (t, b) in types {
        assert_eq!(t.to_byte(), b);
        assert_eq!(FrameType::try_from_byte(b), Ok(t));
        let f = Frame::new(t, 7, vec![1, 2, 3]);
        let d = Frame::decode(&f.encode()).unwrap();
        assert_eq!(d.frame_type, t);
        assert_eq!(d.channel_id, 7);
        assert_eq!(d.payload, vec![1, 2, 3]);
    }
    assert_eq!(FrameType::try_from_byte(0x05), Err(FrameError::InvalidHeader));
}

#[test]
fn decode_errors() {
    let good = Frame::close_channel(9).encode();
    assert_eq!(Frame::decode(&good[..17]).unwrap_err(), FrameError::IncompleteFrame);

    let mut bad_head = good.clone();
    bad_head[1] = 0;
    assert_eq!(Frame::decode(&bad_head).unwrap_err(), FrameError::InvalidHeader);

    let mut bad_version = good.clone();
    bad_version[4] = 2;
    assert_eq!(Frame::decode(&bad_version).unwrap_err(), FrameError::InvalidVersion);

    let mut bad_type = good.clone();
    bad_type[5] = 0x20;
    assert_eq!(Frame::decode(&bad_type).unwrap_err(), FrameError::InvalidHeader);

    let mut too_large = good.clone();
    too_large[10..14].copy_from_slice(&((MAX_FRAME_SIZE as u32) + 1).to_le_bytes());
    assert_eq!(
        Frame::decode(&too_large).unwrap_err(),
        FrameError::FrameTooLarge(MAX_FRAME_SIZE + 1)
    );

    let mut short_payload = good.clone();
    short_payload[10] = 5;
    assert_eq!(Frame::decode(&short_payload).unwrap_err(), FrameError::IncompleteFrame);
}

#[test]
fn decode_ignores_trailing_bytes() {
    let mut bytes = Frame::error("boom").encode();
    bytes.extend_from_slice(&[9, 9, 9]);
    let d = Frame::decode(&bytes).unwrap();
    assert_eq!(d.frame_type, FrameType::Error);
    assert_eq!(d.payload, b"boom".to_vec());
}

#[test]
fn constructors_fill_fields() {
    let f = Frame::open_channel(5, vec![1]);
    assert_eq!((f.frame_type, f.channel_id, f.payload.clone()), (FrameType::OpenChannel, 5, vec![1]));
    let f = Frame::heartbeat_ack();
    assert_eq!((f.frame_type, f.channel_id, f.payload.len()), (FrameType::HeartbeatAck, 0, 0));
    let f = Frame::auth_challenge(vec![3, 4]);
    assert_eq!((f.frame_type, f.channel_id, f.payload.clone()), (FrameType::AuthChallenge, 0, vec![3, 4]));
    let f = Frame::auth_response(vec![5]);
    assert_eq!((f.frame_type, f.channel_id, f.payload.clone()), (FrameType::AuthResponse, 0, vec![5]));
    let p = OpenChannelPayload::new("10.0.0.1".to_string(), 22);
    assert_eq!((p.target_ip.as_str(), p.target_port), ("10.0.0.1", 22));
    assert_eq!(CloseChannelPayload::new("done").reason, "done");
}

#[test]
fn codec_waits_for_whole_frame_and_keeps_rest() {
    let mut codec = FrameCodec::new();
    let mut stream = Frame::data(1, vec![1, 2, 3]).encode();
    stream.extend(Frame::heartbeat().encode());

    let mut buf = stream[..10].to_vec();
    assert!(codec.decode(&mut buf).unwrap().is_none());
    assert_eq!(buf.len(), 10);
    let mut buf = stream[..20].to_vec();
    assert!(codec.decode(&mut buf).unwrap().is_none());
    assert_eq!(buf.len(), 20);

    let mut buf = stream.clone();
    let first = codec.decode(&mut buf).unwrap().unwrap();
    assert_eq!(first.payload, vec![1, 2, 3]);
    assert_eq!(buf.len(), 18);
    let second = codec.decode(&mut buf).unwrap().unwrap();
    assert_eq!(second.frame_type, FrameType::Heartbeat);
    assert!(buf.is_empty());
}

#[test]
fn codec_reports_corrupt_frame_and_drops_it() {
    let mut codec = FrameCodec::default();
    let mut buf = Frame::data(1, vec![7]).encode();
    buf[14] ^= 1;
    buf.extend(Frame::heartbeat().encode());
    assert_eq!(codec.decode(&mut buf).unwrap_err(), FrameError::CrcMismatch);
    assert_eq!(buf.len(), 18);
}

#[test]
fn frame_type_from_byte_trait() {
    assert_eq!(FrameType::try_from(0x12u8), Ok(FrameType::AuthSuccess));
    assert_eq!(FrameType::try_from(0x14u8), Err(FrameError::InvalidHeader));
}

#[test]
fn stream_of_frames_decodes_in_order() {
    let frames = vec![
        Frame::data(1, vec![1]),
        Frame::open_channel(2, b"{}".to_vec()),
        Frame::close_channel(2),
        Frame::heartbeat_ack(),
    ];
    let mut codec = FrameCodec::new();
    let mut buf = Vec::new();
    for f in &frames {
        codec.encode(f.clone(), &mut buf).unwrap();
    }
    buf.extend_from_slice(&[0x50, 0x46]);
    for f in &frames {
        let d = codec.decode(&mut buf).unwrap().unwrap();
        assert_eq!((d.frame_type, d.channel_id, d.payload.clone()), (f.frame_type, f.channel_id, f.payload.clone()));
    }
    assert!(codec.decode(&mut buf).unwrap().is_none());
    assert_eq!(buf, vec![0x50, 0x46]);
}
