//! Frame metadata of the original (protocol v2) shared-memory ring.

use vstd::prelude::*;

pub use super::common::{FrameType, StreamId};

verus! {

/// Metadata of a frame delivered through the shared-memory ring (protocol v2).
#[derive(Debug, Clone, Copy)]
pub struct FrameMetadata {
    /// Producer timestamp in milliseconds.
    pub timestamp_ms: u64,
    /// Producer sequence number.
    pub seq_no: u32,
    /// Frame classification.
    pub frame_type: FrameType,
    /// Remote token (unused on the shared-memory path, always 0).
    pub remote_token: u32,
}

} // verus!
