//! Frame classification shared by the push-mode frame path.

use vstd::prelude::*;

use bytes::BytesMut;

verus! {

/// Kind of an encoded video frame.
#[derive(Debug, Clone, Copy, PartialEq, Eq, Structural)]
pub enum FrameType {
    /// Predicted frame.
    VideoPFrame,
    /// Intra (key) frame.
    VideoIFrame,
    /// Bidirectional frame.
    VideoBFrame,
    /// Partial-refresh predicted frame.
    VideoPiFrame,
}

/// Which encoder stream a frame belongs to.
#[derive(Debug, Clone, Copy, PartialEq, Eq, Structural)]
pub enum StreamId {
    /// High-resolution main stream.
    VideoMain,
    /// Low-resolution sub stream.
    VideoSub,
    /// Audio stream.
    Audio,
}

/// Metadata of a frame delivered through the shared-memory ring (protocol v3).
#[derive(Debug, Clone, Copy)]
pub struct FrameMetadata {
    /// Producer timestamp in milliseconds.
    pub timestamp_ms: u32,
    /// Producer sequence number.
    pub seq_no: u32,
    /// Frame classification.
    pub frame_type: FrameType,
    /// Remote token (unused on the shared-memory path, always 0).
    pub remote_token: u32,
    /// Stream the frame belongs to.
    pub stream_id: StreamId,
}

/// A frame copied out of the shared-memory ring, owning its bytes.
pub struct OwnedFrame {
    /// Encoded frame bytes.
    pub data: BytesMut,
    /// Producer timestamp in milliseconds.
    pub timestamp: u32,
    /// Frame classification.
    pub frame_type: FrameType,
    /// Stream the frame belongs to.
    pub stream_id: StreamId,
}

} // verus!
