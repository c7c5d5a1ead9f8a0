pub mod codec;
pub mod frame;

pub use codec::FrameCodec;
pub use frame::{
    CloseChannelPayload, Frame, FrameError, FrameType, FrameView, OpenChannelPayload, FRAME_HEAD,
    FRAME_HEADER_SIZE, FRAME_TRAILER_SIZE, MAX_FRAME_SIZE, PROTOCOL_VERSION,
};
