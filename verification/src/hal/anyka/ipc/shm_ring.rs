//! Reader side of the shared-memory frame ring (protocol v3, with daemon epoch).
//!
//! The region is a 64-byte ring header followed by eight 128 KiB slots, each a
//! 64-byte slot header and its payload. All fields are little-endian `u32`s at
//! fixed offsets. A slot moves EMPTY -> WRITING -> READY under the daemon and
//! READY -> READING -> EMPTY under this reader; releasing a delivered frame
//! advances the shared `read_seq` by one.
//!
//! `ShmRingReader` holds the region as an owned image and performs each
//! protocol step on it: the lease is a compare-and-set of the slot state.

use vstd::prelude::*;

use bytes::BytesMut;

use crate::hal::frame_buf::{bytes_mut_contents, bytes_mut_extend_from_slice, bytes_mut_with_capacity};
use crate::hal::wire::{
    le_bytes_u32, le_bytes_u64, le_u32_at, lemma_with_u32, with_bytes, write_bytes_at, lemma_with_u32_other, lemma_with_u32_range,
    push_slice, push_u32_le, push_u64_le, read_u32_le, with_u32, write_u32_le,
};
use crate::platform::common::{FrameMetadata, FrameType, StreamId};
use crate::platform::{
    is_hardware_failure, is_invalid_parameter, is_resource_busy, PlatformError, PlatformResult,
};
use crate::text::{dec_nat, fmt_u64, hex_alt, fmt_hex_u32};

verus! {

/// Magic value identifying the shared memory region ("VDFS").
pub const VD_SHM_MAGIC: u32 = 0x5644_4653;
/// Version of the shared memory protocol (v3 adds the daemon `epoch`).
pub const VD_SHM_VERSION: u32 = 3;
/// Minimum supported version (v1 layout still accepted).
pub const VD_SHM_VERSION_MIN: u32 = 1;
/// Number of slots in the ring buffer.
pub const VD_SHM_SLOT_COUNT: u32 = 8;
/// Size of each slot (header + data).
pub const VD_SHM_SLOT_SIZE: usize = 131072;
/// Size of the ring header structure.
pub const VD_SHM_HEADER_SIZE: usize = 64;
/// Size of each slot header.
pub const VD_SHM_SLOT_HDR_SIZE: usize = 64;
/// Size of the data portion of each slot.
pub const VD_SHM_SLOT_DATA_SIZE: usize = 131008;
/// Total size of the shared memory region.
pub const VD_SHM_TOTAL_SIZE: usize = 1048640;

/// Slot is empty and available for writing.
pub const VD_SLOT_EMPTY: u32 = 0;
/// Daemon is currently writing to the slot.
pub const VD_SLOT_WRITING: u32 = 1;
/// Slot contains a complete frame, ready for reading.
pub const VD_SLOT_READY: u32 = 2;
/// The reader is currently reading from the slot.
pub const VD_SLOT_READING: u32 = 3;

/// Daemon has shut down the ring buffer.
pub const VD_FLAG_SHUTDOWN: u32 = 1;
/// Ring buffer overflow occurred (frames were dropped).
pub const VD_FLAG_OVERFLOW: u32 = 2;

/// This is the last fragment of a multi-packet frame.
pub const VD_NOTIFY_LAST_FRAGMENT: u32 = 1;
/// Socket fallback notification (daemon couldn't use shm).
pub const VD_NOTIFY_SOCKET_FALLBACK: u32 = 2;
/// Frame was intentionally dropped by the daemon (P-frame during ring overflow).
pub const VD_NOTIFY_FRAME_DROPPED: u32 = 4;
/// Notification payload size on the Unix socket.
pub const VD_NOTIFY_WIRE_SIZE: usize = 20;

// ----------------------------------------------------------------------------
// Layout of the region
// ----------------------------------------------------------------------------

/// Byte offset of slot `i`'s header.
pub open spec fn slot_offset(i: int) -> int {
    64 + i * 131072
}

/// Byte offset of slot `i`'s payload.
pub open spec fn slot_data_offset(i: int) -> int {
    slot_offset(i) + 64
}

/// `state` of slot `i`.
pub open spec fn slot_state(r: Seq<u8>, i: int) -> int {
    le_u32_at(r, slot_offset(i))
}

/// `frame_len` of slot `i`.
pub open spec fn slot_frame_len(r: Seq<u8>, i: int) -> int {
    le_u32_at(r, slot_offset(i) + 4)
}

/// `timestamp_ms` of slot `i`.
pub open spec fn slot_timestamp_ms(r: Seq<u8>, i: int) -> int {
    le_u32_at(r, slot_offset(i) + 8)
}

/// `seq_no` of slot `i`.
pub open spec fn slot_seq_no(r: Seq<u8>, i: int) -> int {
    le_u32_at(r, slot_offset(i) + 16)
}

/// `frame_type` of slot `i`.
pub open spec fn slot_frame_type(r: Seq<u8>, i: int) -> int {
    le_u32_at(r, slot_offset(i) + 20)
}

/// `stream_id` of slot `i`.
pub open spec fn slot_stream_id(r: Seq<u8>, i: int) -> int {
    le_u32_at(r, slot_offset(i) + 24)
}

/// The first `len` payload bytes of slot `i`.
pub open spec fn slot_payload(r: Seq<u8>, i: int, len: int) -> Seq<u8> {
    r.subrange(slot_data_offset(i), slot_data_offset(i) + len)
}

/// Ring header `magic`.
pub open spec fn ring_magic(r: Seq<u8>) -> int {
    le_u32_at(r, 0)
}

/// Ring header `version`.
pub open spec fn ring_version(r: Seq<u8>) -> int {
    le_u32_at(r, 4)
}

/// Ring header `write_seq`.
pub open spec fn ring_write_seq(r: Seq<u8>) -> int {
    le_u32_at(r, 20)
}

/// Ring header `read_seq`.
pub open spec fn ring_read_seq(r: Seq<u8>) -> int {
    le_u32_at(r, 24)
}

/// Ring header `flags`.
pub open spec fn ring_flags(r: Seq<u8>) -> int {
    le_u32_at(r, 28)
}

/// Ring header `epoch` (0 when not stamped).
pub open spec fn ring_epoch(r: Seq<u8>) -> int {
    le_u32_at(r, 48)
}

/// `r` with slot `i`'s state set to `state`.
pub open spec fn with_slot_state(r: Seq<u8>, i: int, state: u32) -> Seq<u8> {
    with_u32(r, slot_offset(i), state)
}

/// `r` with `read_seq` advanced by one, wrapping at 2^32.
pub open spec fn with_read_seq_advanced(r: Seq<u8>) -> Seq<u8> {
    with_u32(r, 24, ((ring_read_seq(r) + 1) % 4294967296) as u32)
}

/// Whether slot `i` of `r` still holds the frame `n` announced (always, without a notification).
pub open spec fn notification_current(r: Seq<u8>, i: int, n: Option<FrameNotification>) -> bool {
    match n {
        Some(n) => n.spec_matches_slot(slot_frame_len(r, i), slot_seq_no(r, i), slot_stream_id(r, i)),
        None => true,
    }
}

/// The metadata the reader reports for the frame in slot `i`.
pub open spec fn slot_metadata(r: Seq<u8>, i: int) -> FrameMetadata {
    FrameMetadata {
        timestamp_ms: slot_timestamp_ms(r, i) as u32,
        seq_no: slot_seq_no(r, i) as u32,
        frame_type: spec_frame_type_to_onvif(slot_frame_type(r, i)),
        remote_token: 0,
        stream_id: spec_stream_id_to_onvif(slot_stream_id(r, i)),
    }
}

/// What copying the frame in slot `i` out of the ring yields, and the region after it.
pub open spec fn copy_out_outcome(
    r: Seq<u8>,
    i: int,
    n: Option<FrameNotification>,
    res: PlatformResult<(FrameMetadata, BytesMut)>,
    r2: Seq<u8>,
) -> bool {
    &&& i >= 8 ==> r2 == r && is_invalid_parameter(res, msg_index_out_of_range_max(i))
    &&& 0 <= i < 8 && slot_state(r, i) != VD_SLOT_READY ==> r2 == r && is_invalid_parameter(
        res,
        msg_not_ready(i, slot_state(r, i)),
    )
    &&& 0 <= i < 8 && slot_state(r, i) == VD_SLOT_READY && slot_frame_len(r, i)
        > VD_SHM_SLOT_DATA_SIZE ==> r2 == after_clear(r, i) && is_invalid_parameter(
        res,
        msg_too_long(i, slot_frame_len(r, i)),
    )
    &&& slot_leasable(r, i) && !notification_current(r, i, n) ==> r2 == after_clear(r, i)
        && is_resource_busy(
        res,
        msg_stale(i, n.unwrap(), slot_stream_id(r, i), slot_seq_no(r, i), slot_frame_len(r, i)),
    )
    &&& slot_leasable(r, i) && notification_current(r, i, n) ==> r2 == after_release(r, i) && (
    res matches Ok((meta, buf)) && meta == slot_metadata(r, i) && bytes_mut_contents(buf)
        == slot_payload(r, i, slot_frame_len(r, i)))
}

/// Whether `flags` has the bit `mask` (a power of two) set.
pub open spec fn has_flag(flags: int, mask: int) -> bool {
    (flags / mask) % 2 == 1
}

// ----------------------------------------------------------------------------
// Messages
// ----------------------------------------------------------------------------

pub open spec fn msg_index_out_of_range_max(i: int) -> Seq<char> {
    "slot index "@ + dec_nat(i as nat) + " out of range (max 7)"@
}

pub open spec fn msg_index_out_of_range(i: int) -> Seq<char> {
    "slot index "@ + dec_nat(i as nat) + " out of range"@
}

pub open spec fn msg_not_ready(i: int, state: int) -> Seq<char> {
    "slot "@ + dec_nat(i as nat) + " not ready for reading (state: "@ + dec_nat(state as nat) + ")"@
}

pub open spec fn msg_too_long(i: int, len: int) -> Seq<char> {
    "slot "@ + dec_nat(i as nat) + " frame_len "@ + dec_nat(len as nat)
        + " exceeds slot capacity 131008"@
}

pub open spec fn msg_stale(i: int, n: FrameNotification, stream: int, seq: int, len: int) -> Seq<
    char,
> {
    "stale notification for slot "@ + dec_nat(i as nat) + " (expected stream "@ + dec_nat(
        n.stream_id as nat,
    ) + ", seq "@ + dec_nat(n.seq_no as nat) + ", len "@ + dec_nat(n.frame_len as nat)
        + "; got stream "@ + dec_nat(stream as nat) + ", seq "@ + dec_nat(seq as nat) + ", len "@
        + dec_nat(len as nat) + ")"@
}

pub open spec fn msg_release_failed(i: int, state: int) -> Seq<char> {
    "failed to release slot "@ + dec_nat(i as nat) + ": expected state 3, got "@ + dec_nat(
        state as nat,
    )
}

pub open spec fn msg_clear_failed(i: int, state: int) -> Seq<char> {
    "failed to clear stale slot "@ + dec_nat(i as nat) + ": expected state 3, got "@ + dec_nat(
        state as nat,
    )
}

pub open spec fn msg_release_race(i: int, n: FrameNotification, stream: int, seq: int, len: int) -> Seq<
    char,
> {
    "stale notification release race on slot "@ + dec_nat(i as nat)
        + ": expected stream/seq/len Some("@ + dec_nat(n.stream_id as nat) + ")/Some("@ + dec_nat(
        n.seq_no as nat,
    ) + ")/Some("@ + dec_nat(n.frame_len as nat) + "), got "@ + dec_nat(stream as nat) + "/"@
        + dec_nat(seq as nat) + "/"@ + dec_nat(len as nat)
}

pub open spec fn msg_bad_size(got: int) -> Seq<char> {
    "invalid shm size: expected 1048640, got "@ + dec_nat(got as nat)
}

/// The error of a region that is `got` bytes long instead of
/// [`VD_SHM_TOTAL_SIZE`].
pub fn bad_size_error(got: usize) -> (e: PlatformError)
    ensures
        e matches PlatformError::InvalidParameter(m) && m@ == msg_bad_size(got as int),
{
    let mut m = String::from_str("invalid shm size: expected 1048640, got ");
    m.append(fmt_u64(got as u64).as_str());
    PlatformError::InvalidParameter(m)
}

pub open spec fn msg_bad_magic(got: int) -> Seq<char> {
    "invalid shm magic: expected 0x56444653, got "@ + hex_alt(got as nat)
}

pub open spec fn msg_bad_version(got: int) -> Seq<char> {
    "unsupported shm version: expected 1-3, got "@ + dec_nat(got as nat)
}

/// Message of a slot whose state changed between the read and the lease.
pub open spec fn msg_acquire_race(i: int, now: int) -> Seq<char> {
    "slot "@ + dec_nat(i as nat) + " state changed during acquire (was 2, now "@ + dec_nat(now as nat) + ")"@
}

/// What the lease on the live ring means for reading slot `slot_index`:
/// `acquired` is the outcome of the compare-exchange READY -> READING on the
/// slot's live state word, `Ok` with the state it replaced, or `Err` with the
/// state it found instead. A lease taken lets the read go on; a lost race
/// is a retryable busy slot.
pub fn live_lease_outcome(slot_index: u32, acquired: Result<u32, u32>) -> (res: PlatformResult<()>)
    ensures
        acquired is Ok ==> res is Ok,
        acquired matches Err(now) ==> is_resource_busy(res, msg_acquire_race(slot_index as int, now as int)),
{
    match acquired {
        Ok(_) => Ok(()),
        Err(now) => Err(
            PlatformError::ResourceBusy(
                slot_msg("slot ", slot_index, " state changed during acquire (was 2, now ", now as u64, ")"),
            ),
        ),
    }
}

fn slot_msg(head: &str, i: u32, mid: &str, v: u64, tail: &str) -> (s: String)
    ensures
        s@ == head@ + dec_nat(i as nat) + mid@ + dec_nat(v as nat) + tail@,
{
    let mut s = String::from_str(head);
    s.append(fmt_u64(i as u64).as_str());
    s.append(mid);
    s.append(fmt_u64(v).as_str());
    s.append(tail);
    s
}

fn slot_msg2(head: &str, i: u32, mid: &str, v: u64) -> (s: String)
    ensures
        s@ == head@ + dec_nat(i as nat) + mid@ + dec_nat(v as nat),
{
    let mut s = String::from_str(head);
    s.append(fmt_u64(i as u64).as_str());
    s.append(mid);
    s.append(fmt_u64(v).as_str());
    s
}

fn index_msg(i: u32, tail: &str) -> (s: String)
    ensures
        s@ == "slot index "@ + dec_nat(i as nat) + tail@,
{
    let mut s = String::from_str("slot index ");
    s.append(fmt_u64(i as u64).as_str());
    s.append(tail);
    s
}

/// Human-readable name of a slot state, as used in diagnostics.
pub fn slot_state_name(state: u32) -> (name: &'static str)
    ensures
        state == VD_SLOT_EMPTY ==> name@ == "EMPTY"@,
        state == VD_SLOT_WRITING ==> name@ == "WRITING"@,
        state == VD_SLOT_READY ==> name@ == "READY"@,
        state == VD_SLOT_READING ==> name@ == "READING"@,
        state > VD_SLOT_READING ==> name@ == "UNKNOWN"@,
{
    match state {
        0 => "EMPTY",
        1 => "WRITING",
        2 => "READY",
        3 => "READING",
        _ => "UNKNOWN",
    }
}

// ----------------------------------------------------------------------------
// Headers
// ----------------------------------------------------------------------------

/// The ring header (64 bytes at the start of the region).
#[derive(Debug, Clone, Copy)]
pub struct RingHeader {
    /// Magic value ([`VD_SHM_MAGIC`]).
    pub magic: u32,
    /// Protocol version.
    pub version: u32,
    /// Total shared memory size.
    pub total_size: u32,
    /// Number of slots.
    pub slot_count: u32,
    /// Size of the data portion of a slot.
    pub slot_data_size: u32,
    /// Sequence number of the last written frame (the daemon's).
    pub write_seq: u32,
    /// Sequence number of the last released frame.
    pub read_seq: u32,
    /// Ring flags (`VD_FLAG_*`).
    pub flags: u32,
    /// Ring-full events (version >= 2).
    pub overflow_count: u32,
    /// P-frame evictions for I-frame priority (version >= 2).
    pub eviction_count: u32,
    /// Frames sent through the socket fallback (version >= 2).
    pub socket_fallback_count: u32,
    /// P-frames dropped during overflow (version >= 2).
    pub dropped_count: u32,
    /// Daemon generation (version >= 3); 0 when not reported.
    pub epoch: u32,
    /// Padding to 64 bytes.
    pub _padding: [u8; 12],
}

/// The 64 bytes of a ring header: thirteen u32 LE fields in order, then the padding.
pub open spec fn ring_header_bytes(h: RingHeader) -> Seq<u8> {
    le_bytes_u32(h.magic) + le_bytes_u32(h.version) + le_bytes_u32(h.total_size) + le_bytes_u32(
        h.slot_count,
    ) + le_bytes_u32(h.slot_data_size) + le_bytes_u32(h.write_seq) + le_bytes_u32(h.read_seq)
        + le_bytes_u32(h.flags) + le_bytes_u32(h.overflow_count) + le_bytes_u32(h.eviction_count)
        + le_bytes_u32(h.socket_fallback_count) + le_bytes_u32(h.dropped_count) + le_bytes_u32(
        h.epoch,
    ) + h._padding@
}

impl RingHeader {
    /// The header's bytes as they lie in the region.
    pub fn to_bytes(&self) -> (b: Vec<u8>)
        ensures
            b@ == ring_header_bytes(*self),
    {
        let mut b: Vec<u8> = Vec::new();
        push_u32_le(&mut b, self.magic);
        push_u32_le(&mut b, self.version);
        push_u32_le(&mut b, self.total_size);
        push_u32_le(&mut b, self.slot_count);
        push_u32_le(&mut b, self.slot_data_size);
        push_u32_le(&mut b, self.write_seq);
        push_u32_le(&mut b, self.read_seq);
        push_u32_le(&mut b, self.flags);
        push_u32_le(&mut b, self.overflow_count);
        push_u32_le(&mut b, self.eviction_count);
        push_u32_le(&mut b, self.socket_fallback_count);
        push_u32_le(&mut b, self.dropped_count);
        push_u32_le(&mut b, self.epoch);
        push_slice(&mut b, self._padding.as_slice());
        b
    }
}

/// A slot header (the first 64 bytes of each slot).
#[derive(Debug, Clone, Copy)]
pub struct SlotHeader {
    /// Slot state (`VD_SLOT_*`).
    pub state: u32,
    /// Length of the frame data in bytes.
    pub frame_len: u32,
    /// Timestamp in milliseconds.
    pub timestamp_ms: u32,
    /// Padding (the high half of a former 64-bit timestamp).
    pub _ts_pad: u32,
    /// Frame sequence number.
    pub seq_no: u32,
    /// Frame type (raw daemon code).
    pub frame_type: u32,
    /// Stream identifier (raw daemon code).
    pub stream_id: u32,
    /// Checksum of the frame data.
    pub checksum: u32,
    /// Monotonic clock at ring write time (version >= 2).
    pub wall_clock_us: u64,
    /// Reserved.
    pub _reserved2: u32,
    /// Reserved.
    pub _reserved: u32,
    /// Padding to 64 bytes.
    pub _padding: [u8; 16],
}

/// The 64 bytes of a slot header as they lie in the region.
pub open spec fn slot_header_bytes(h: SlotHeader) -> Seq<u8> {
    le_bytes_u32(h.state) + le_bytes_u32(h.frame_len) + le_bytes_u32(h.timestamp_ms)
        + le_bytes_u32(h._ts_pad) + le_bytes_u32(h.seq_no) + le_bytes_u32(h.frame_type)
        + le_bytes_u32(h.stream_id) + le_bytes_u32(h.checksum) + le_bytes_u64(h.wall_clock_us)
        + le_bytes_u32(h._reserved2) + le_bytes_u32(h._reserved) + h._padding@
}

impl SlotHeader {
    /// The header's bytes as they lie in the region.
    pub fn to_bytes(&self) -> (b: Vec<u8>)
        ensures
            b@ == slot_header_bytes(*self),
    {
        let mut b: Vec<u8> = Vec::new();
        push_u32_le(&mut b, self.state);
        push_u32_le(&mut b, self.frame_len);
        push_u32_le(&mut b, self.timestamp_ms);
        push_u32_le(&mut b, self._ts_pad);
        push_u32_le(&mut b, self.seq_no);
        push_u32_le(&mut b, self.frame_type);
        push_u32_le(&mut b, self.stream_id);
        push_u32_le(&mut b, self.checksum);
        push_u64_le(&mut b, self.wall_clock_us);
        push_u32_le(&mut b, self._reserved2);
        push_u32_le(&mut b, self._reserved);
        push_slice(&mut b, self._padding.as_slice());
        b
    }
}

// ----------------------------------------------------------------------------
// Notifications
// ----------------------------------------------------------------------------

/// Frame notification received from the vendor daemon (20 bytes on the socket).
#[derive(Debug, Clone, Copy, PartialEq, Eq, Structural)]
pub struct FrameNotification {
    /// Index of the slot containing the frame.
    pub slot_index: u32,
    /// Length of the frame data.
    pub frame_len: u32,
    /// Notification flags.
    pub flags: u32,
    /// Stream identifier expected in the slot.
    pub stream_id: u32,
    /// Sequence number expected in the slot.
    pub seq_no: u32,
}

impl FrameNotification {
    /// Parse a frame notification from its 20 little-endian wire bytes.
    pub fn from_bytes(bytes: &[u8; 20]) -> (n: Self)
        ensures
            n.slot_index == le_u32_at(bytes@, 0),
            n.frame_len == le_u32_at(bytes@, 4),
            n.flags == le_u32_at(bytes@, 8),
            n.stream_id == le_u32_at(bytes@, 12),
            n.seq_no == le_u32_at(bytes@, 16),
    {
        let s = bytes.as_slice();
        FrameNotification {
            slot_index: read_u32_le(s, 0),
            frame_len: read_u32_le(s, 4),
            flags: read_u32_le(s, 8),
            stream_id: read_u32_le(s, 12),
            seq_no: read_u32_le(s, 16),
        }
    }

    /// Whether the daemon asks the caller to fall back to a socket read.
    pub fn is_socket_fallback(&self) -> (b: bool)
        ensures
            b == has_flag(self.flags as int, 2),
    {
        let f = self.flags;
        assert((f & 2 != 0) == ((f / 2) % 2 == 1)) by (bit_vector);
        f & VD_NOTIFY_SOCKET_FALLBACK != 0
    }

    /// Whether the daemon intentionally dropped this frame (P-frame during overflow).
    pub fn is_frame_dropped(&self) -> (b: bool)
        ensures
            b == has_flag(self.flags as int, 4),
    {
        let f = self.flags;
        assert((f & 4 != 0) == ((f / 4) % 2 == 1)) by (bit_vector);
        f & VD_NOTIFY_FRAME_DROPPED != 0
    }

    /// Whether the slot still holds the frame this notification announced.
    pub open spec fn spec_matches_slot(&self, frame_len: int, seq_no: int, stream_id: int) -> bool {
        self.frame_len == frame_len && self.seq_no == seq_no && self.stream_id == stream_id
    }

    fn matches_slot(&self, frame_len: u32, seq_no: u32, stream_id: u32) -> (b: bool)
        ensures
            b == self.spec_matches_slot(frame_len as int, seq_no as int, stream_id as int),
    {
        self.frame_len == frame_len && self.seq_no == seq_no && self.stream_id == stream_id
    }
}

// ----------------------------------------------------------------------------
// Frame classification
// ----------------------------------------------------------------------------

/// The daemon's frame type codes: 0 = P, 1 = I, 2 = B, 3 = Pi; anything else is P.
pub open spec fn spec_frame_type_to_onvif(raw: int) -> FrameType {
    if raw == 1 {
        FrameType::VideoIFrame
    } else if raw == 2 {
        FrameType::VideoBFrame
    } else if raw == 3 {
        FrameType::VideoPiFrame
    } else {
        FrameType::VideoPFrame
    }
}

/// The daemon's stream ids: 0 = main, 1 = sub, anything else audio.
pub open spec fn spec_stream_id_to_onvif(raw: int) -> StreamId {
    if raw == 0 {
        StreamId::VideoMain
    } else if raw == 1 {
        StreamId::VideoSub
    } else {
        StreamId::Audio
    }
}

/// Convert a raw frame type from the daemon to a [`FrameType`].
pub fn shm_frame_type_to_onvif(raw: u32) -> (t: FrameType)
    ensures
        t == spec_frame_type_to_onvif(raw as int),
{
    match raw {
        0 => FrameType::VideoPFrame,
        1 => FrameType::VideoIFrame,
        2 => FrameType::VideoBFrame,
        3 => FrameType::VideoPiFrame,
        _ => FrameType::VideoPFrame,
    }
}

/// Convert a raw stream id from the daemon to a [`StreamId`].
pub fn shm_stream_id_to_onvif(raw: u32) -> (s: StreamId)
    ensures
        s == spec_stream_id_to_onvif(raw as int),
{
    match raw {
        0 => StreamId::VideoMain,
        1 => StreamId::VideoSub,
        _ => StreamId::Audio,
    }
}

// ----------------------------------------------------------------------------
// Transitions of the region
// ----------------------------------------------------------------------------

/// Whether `r` is a complete region image.
pub open spec fn region_sized(r: Seq<u8>) -> bool {
    r.len() == VD_SHM_TOTAL_SIZE
}

/// Whether slot `i` of `r` holds a frame this reader may lease.
pub open spec fn slot_leasable(r: Seq<u8>, i: int) -> bool {
    0 <= i < 8 && slot_state(r, i) == VD_SLOT_READY && slot_frame_len(r, i) <= VD_SHM_SLOT_DATA_SIZE
}

/// The region after a successful lease of slot `i`.
pub open spec fn after_lease(r: Seq<u8>, i: int) -> Seq<u8> {
    with_slot_state(r, i, VD_SLOT_READING)
}

/// The region after slot `i` is handed back without consuming a frame.
pub open spec fn after_clear(r: Seq<u8>, i: int) -> Seq<u8> {
    with_slot_state(r, i, VD_SLOT_EMPTY)
}

/// The region after a frame in slot `i` is delivered and released.
pub open spec fn after_release(r: Seq<u8>, i: int) -> Seq<u8> {
    with_read_seq_advanced(with_slot_state(r, i, VD_SLOT_EMPTY))
}

// ----------------------------------------------------------------------------
// Reader
// ----------------------------------------------------------------------------

/// Reader for the shared memory ring buffer.
pub struct ShmRingReader {
    region: Vec<u8>,
}

/// Borrowed frame data from the ring, valid while the slot is leased.
pub struct ShmFrame<'a> {
    /// Frame data (the first `frame_len` bytes of the slot payload).
    pub data: &'a [u8],
    /// Timestamp in milliseconds.
    pub timestamp_ms: u32,
    /// Frame sequence number.
    pub seq_no: u32,
    /// Frame type (raw value from the daemon).
    pub frame_type: u32,
    /// Stream identifier.
    pub stream_id: u32,
    /// Slot the frame was leased from.
    pub slot_index: u32,
}

impl<'a> ShmFrame<'a> {
    /// Convert the raw frame type to a [`FrameType`].
    pub fn frame_type_onvif(&self) -> (t: FrameType)
        ensures
            t == spec_frame_type_to_onvif(self.frame_type as int),
    {
        shm_frame_type_to_onvif(self.frame_type)
    }

    /// Convert the raw stream id to a [`StreamId`].
    pub fn stream_id_onvif(&self) -> (s: StreamId)
        ensures
            s == spec_stream_id_to_onvif(self.stream_id as int),
    {
        shm_stream_id_to_onvif(self.stream_id)
    }
}

impl View for ShmRingReader {
    type V = Seq<u8>;

    closed spec fn view(&self) -> Seq<u8> {
        self.region@
    }
}

/// Facts about the slot fields of `r` after slot `i`'s state is replaced.
pub proof fn lemma_slot_fields_after_state(r: Seq<u8>, i: int, st: u32)
    requires
        region_sized(r),
        0 <= i < 8,
    ensures
        region_sized(with_slot_state(r, i, st)),
        slot_state(with_slot_state(r, i, st), i) == st,
        slot_frame_len(with_slot_state(r, i, st), i) == slot_frame_len(r, i),
        slot_timestamp_ms(with_slot_state(r, i, st), i) == slot_timestamp_ms(r, i),
        slot_seq_no(with_slot_state(r, i, st), i) == slot_seq_no(r, i),
        slot_frame_type(with_slot_state(r, i, st), i) == slot_frame_type(r, i),
        slot_stream_id(with_slot_state(r, i, st), i) == slot_stream_id(r, i),
        ring_read_seq(with_slot_state(r, i, st)) == ring_read_seq(r),
        ring_write_seq(with_slot_state(r, i, st)) == ring_write_seq(r),
        forall|len: int|
            0 <= len <= VD_SHM_SLOT_DATA_SIZE ==> #[trigger] slot_payload(
                with_slot_state(r, i, st),
                i,
                len,
            ) == slot_payload(r, i, len),
{
    let o = slot_offset(i);
    lemma_with_u32(r, o, st);
    lemma_with_u32_other(r, o, st, o + 4);
    lemma_with_u32_other(r, o, st, o + 8);
    lemma_with_u32_other(r, o, st, o + 16);
    lemma_with_u32_other(r, o, st, o + 20);
    lemma_with_u32_other(r, o, st, o + 24);
    lemma_with_u32_other(r, o, st, 24);
    lemma_with_u32_other(r, o, st, 20);
    assert forall|len: int| 0 <= len <= VD_SHM_SLOT_DATA_SIZE implies #[trigger] slot_payload(
        with_slot_state(r, i, st),
        i,
        len,
    ) == slot_payload(r, i, len) by {
        lemma_with_u32_range(r, o, st, o + 64, o + 64 + len);
    }
}

impl ShmRingReader {
    #[verifier::type_invariant]
    spec fn inv(self) -> bool {
        region_sized(self.region@)
    }

    /// Validate a region image and wrap it in a reader.
    ///
    /// `image` is `None` when the daemon does not use shared memory (no ring
    /// file); the result is then `Ok(None)`.
    pub fn open(image: Option<Vec<u8>>) -> (res: PlatformResult<Option<Self>>)
        ensures
            image is None ==> res matches Ok(None),
            image matches Some(b) ==> {
                let r = b@;
                &&& !region_sized(r) ==> is_invalid_parameter(res, msg_bad_size(r.len() as int))
                &&& region_sized(r) && ring_magic(r) != VD_SHM_MAGIC ==> is_invalid_parameter(
                    res,
                    msg_bad_magic(ring_magic(r)),
                )
                &&& region_sized(r) && ring_magic(r) == VD_SHM_MAGIC && !(1 <= ring_version(r) <= 3)
                    ==> is_invalid_parameter(res, msg_bad_version(ring_version(r)))
                &&& region_sized(r) && ring_magic(r) == VD_SHM_MAGIC && 1 <= ring_version(r) <= 3
                    ==> (res matches Ok(Some(reader)) && reader@ == r)
            },
    {
        match image {
            None => Ok(None),
            Some(region) => {
                let size = region.len();
                if size != VD_SHM_TOTAL_SIZE {
                    return Err(bad_size_error(size));
                }
                let magic = read_u32_le(region.as_slice(), 0);
                if magic != VD_SHM_MAGIC {
                    let mut m = String::from_str("invalid shm magic: expected 0x56444653, got ");
                    m.append(fmt_hex_u32(magic).as_str());
                    return Err(PlatformError::InvalidParameter(m));
                }
                let version = read_u32_le(region.as_slice(), 4);
                if version < VD_SHM_VERSION_MIN || version > VD_SHM_VERSION {
                    let mut m = String::from_str("unsupported shm version: expected 1-3, got ");
                    m.append(fmt_u64(version as u64).as_str());
                    return Err(PlatformError::InvalidParameter(m));
                }
                Ok(Some(ShmRingReader { region }))
            },
        }
    }

    /// Whether the daemon has shut the ring buffer down (`VD_FLAG_SHUTDOWN`).
    pub fn is_shutdown(&self) -> (b: bool)
        ensures
            b == has_flag(ring_flags(self@), 1),
    {
        proof { use_type_invariant(self); }
        let f = read_u32_le(self.region.as_slice(), 28);
        assert((f & 1 != 0) == ((f / 1) % 2 == 1)) by (bit_vector);
        f & VD_FLAG_SHUTDOWN != 0
    }

    /// The daemon generation counter from the ring header (0 when unstamped or pre-v3).
    pub fn epoch(&self) -> (e: u32)
        ensures
            e == ring_epoch(self@),
    {
        proof { use_type_invariant(self); }
        read_u32_le(self.region.as_slice(), 48)
    }

    /// `(overflow_count, eviction_count, socket_fallback_count, dropped_count)`;
    /// all zero for a version-1 ring.
    pub fn diagnostic_counters(&self) -> (c: (u32, u32, u32, u32))
        ensures
            ring_version(self@) < 2 ==> c == (0u32, 0u32, 0u32, 0u32),
            ring_version(self@) >= 2 ==> c.0 == le_u32_at(self@, 32) && c.1 == le_u32_at(self@, 36)
                && c.2 == le_u32_at(self@, 40) && c.3 == le_u32_at(self@, 44),
    {
        proof { use_type_invariant(self); }
        let s = self.region.as_slice();
        let version = read_u32_le(s, 4);
        if version < 2 {
            return (0, 0, 0, 0);
        }
        (read_u32_le(s, 32), read_u32_le(s, 36), read_u32_le(s, 40), read_u32_le(s, 44))
    }

    /// The daemon's write sequence number.
    pub fn write_seq(&self) -> (w: u32)
        ensures
            w == ring_write_seq(self@),
    {
        proof { use_type_invariant(self); }
        read_u32_le(self.region.as_slice(), 20)
    }

    /// The shared read sequence number.
    pub fn read_seq(&self) -> (r: u32)
        ensures
            r == ring_read_seq(self@),
    {
        proof { use_type_invariant(self); }
        read_u32_le(self.region.as_slice(), 24)
    }

    /// The state word of slot `slot_index`.
    pub fn slot_state(&self, slot_index: u32) -> (st: u32)
        requires
            slot_index < 8,
        ensures
            st == slot_state(self@, slot_index as int),
    {
        self.slot_field(slot_index, 0)
    }

    /// Apply a write of the producer to the shared region: the 32-bit word at
    /// `offset` becomes `value` (LE), everything else is left as it is.
    pub fn apply_producer_word(&mut self, offset: usize, value: u32)
        requires
            offset + 4 <= VD_SHM_TOTAL_SIZE,
        ensures
            final(self)@ == with_u32(old(self)@, offset as int, value),
    {
        proof {
            use_type_invariant(&*self);
            lemma_with_u32(self@, offset as int, value);
        }
        write_u32_le(&mut self.region, offset, value);
    }

    /// Apply a write of the producer to the shared region: the bytes from
    /// `offset` on become `bytes`, everything else is left as it is.
    pub fn apply_producer_bytes(&mut self, offset: usize, bytes: &[u8])
        requires
            offset + bytes@.len() <= VD_SHM_TOTAL_SIZE,
        ensures
            final(self)@ == with_bytes(old(self)@, offset as int, bytes@),
    {
        proof {
            use_type_invariant(&*self);
        }
        let n = bytes.len();
        write_bytes_at(&mut self.region, offset, bytes, n);
    }

    fn slot_field(&self, slot_index: u32, field: usize) -> (v: u32)
        requires
            slot_index < 8,
            field <= 60,
        ensures
            v == le_u32_at(self@, slot_offset(slot_index as int) + field),
    {
        proof { use_type_invariant(self); }
        read_u32_le(self.region.as_slice(), 64 + (slot_index as usize) * 131072 + field)
    }

    /// Compare-and-set of slot `i`'s state: `Ok(expected)` after storing `new`,
    /// or `Err(actual)` with nothing changed.
    fn compare_exchange_state(&mut self, slot_index: u32, expected: u32, new: u32) -> (res: Result<
        u32,
        u32,
    >)
        requires
            slot_index < 8,
        ensures
            slot_state(old(self)@, slot_index as int) == expected ==> res == Ok::<u32, u32>(expected)
                && final(self)@ == with_slot_state(old(self)@, slot_index as int, new),
            slot_state(old(self)@, slot_index as int) != expected ==> res == Err::<u32, u32>(
                slot_state(old(self)@, slot_index as int) as u32,
            ) && final(self)@ == old(self)@,
    {
        proof { use_type_invariant(&*self); }
        let off = 64 + (slot_index as usize) * 131072;
        let current = read_u32_le(self.region.as_slice(), off);
        if current == expected {
            write_u32_le(&mut self.region, off, new);
            proof { lemma_with_u32(old(self)@, off as int, new); }
            Ok(expected)
        } else {
            Err(current)
        }
    }

    fn store_state(&mut self, slot_index: u32, state: u32)
        requires
            slot_index < 8,
        ensures
            final(self)@ == with_slot_state(old(self)@, slot_index as int, state),
    {
        proof {
            use_type_invariant(&*self);
            lemma_with_u32(self@, slot_offset(slot_index as int), state);
        }
        write_u32_le(&mut self.region, 64 + (slot_index as usize) * 131072, state);
    }

    fn advance_read_seq(&mut self)
        ensures
            final(self)@ == with_read_seq_advanced(old(self)@),
    {
        proof {
            use_type_invariant(&*self);
            lemma_with_u32(self@, 24, 0);
        }
        let r = read_u32_le(self.region.as_slice(), 24);
        let next = r.wrapping_add(1);
        assert(next == (r as int + 1) % 4294967296) by (bit_vector)
            requires
                next == r.wrapping_add(1),
        ;
        proof { lemma_with_u32(self@, 24, next); }
        write_u32_le(&mut self.region, 24, next);
    }

    /// Clear a leased slot (READING -> EMPTY) without advancing `read_seq`:
    /// the slot returns to the daemon but no frame counts as delivered.
    pub fn release_slot_without_advancing_read_seq(&mut self, slot_index: u32) -> (res:
        PlatformResult<()>)
        ensures
            region_sized(final(self)@),
            slot_index >= 8 ==> final(self)@ == old(self)@ && is_invalid_parameter(
                res,
                msg_index_out_of_range(slot_index as int),
            ),
            slot_index < 8 && slot_state(old(self)@, slot_index as int) == VD_SLOT_READING ==> res
                is Ok && final(self)@ == after_clear(old(self)@, slot_index as int),
            slot_index < 8 && slot_state(old(self)@, slot_index as int) != VD_SLOT_READING
                ==> final(self)@ == old(self)@ && is_hardware_failure(
                res,
                msg_clear_failed(slot_index as int, slot_state(old(self)@, slot_index as int)),
            ),
    {
        proof { use_type_invariant(&*self); }
        if slot_index >= VD_SHM_SLOT_COUNT {
            return Err(PlatformError::InvalidParameter(index_msg(slot_index, " out of range")));
        }
        proof { lemma_slot_fields_after_state(self@, slot_index as int, VD_SLOT_EMPTY); }
        match self.compare_exchange_state(slot_index, VD_SLOT_READING, VD_SLOT_EMPTY) {
            Ok(_) => Ok(()),
            Err(current) => Err(
                PlatformError::HardwareFailure(
                    slot_msg2(
                        "failed to clear stale slot ",
                        slot_index,
                        ": expected state 3, got ",
                        current as u64,
                    ),
                ),
            ),
        }
    }

    /// Release a leased slot (READING -> EMPTY) and advance `read_seq` by one.
    ///
    /// If the slot is not leased and the notification no longer matches the slot
    /// header, the failure is a producer/consumer race (`ResourceBusy`);
    /// otherwise it is reported as a hardware failure.
    pub fn release_slot_with_expectation(
        &mut self,
        slot_index: u32,
        notification: Option<&FrameNotification>,
    ) -> (res: PlatformResult<()>)
        ensures
            region_sized(final(self)@),
            slot_index >= 8 ==> final(self)@ == old(self)@ && is_invalid_parameter(
                res,
                msg_index_out_of_range(slot_index as int),
            ),
            slot_index < 8 && slot_state(old(self)@, slot_index as int) == VD_SLOT_READING ==> res
                is Ok && final(self)@ == after_release(old(self)@, slot_index as int),
            slot_index < 8 && slot_state(old(self)@, slot_index as int) != VD_SLOT_READING
                ==> final(self)@ == old(self)@ && ({
                let r = old(self)@;
                let i = slot_index as int;
                match notification {
                    Some(n) => if n.spec_matches_slot(
                        slot_frame_len(r, i),
                        slot_seq_no(r, i),
                        slot_stream_id(r, i),
                    ) {
                        is_hardware_failure(res, msg_release_failed(i, slot_state(r, i)))
                    } else {
                        is_resource_busy(
                            res,
                            msg_release_race(
                                i,
                                *n,
                                slot_stream_id(r, i),
                                slot_seq_no(r, i),
                                slot_frame_len(r, i),
                            ),
                        )
                    },
                    None => is_hardware_failure(res, msg_release_failed(i, slot_state(r, i))),
                }
            }),
    {
        proof { use_type_invariant(&*self); }
        if slot_index >= VD_SHM_SLOT_COUNT {
            return Err(PlatformError::InvalidParameter(index_msg(slot_index, " out of range")));
        }
        proof { lemma_slot_fields_after_state(self@, slot_index as int, VD_SLOT_EMPTY); }
        match self.compare_exchange_state(slot_index, VD_SLOT_READING, VD_SLOT_EMPTY) {
            Ok(_) => {
                self.advance_read_seq();
                Ok(())
            },
            Err(current) => {
                let frame_len = self.slot_field(slot_index, 4);
                let seq_no = self.slot_field(slot_index, 16);
                let stream_id = self.slot_field(slot_index, 24);
                match notification {
                    Some(n) => {
                        if !n.matches_slot(frame_len, seq_no, stream_id) {
                            let mut m = String::from_str("stale notification release race on slot ");
                            m.append(fmt_u64(slot_index as u64).as_str());
                            m.append(": expected stream/seq/len Some(");
                            m.append(fmt_u64(n.stream_id as u64).as_str());
                            m.append(")/Some(");
                            m.append(fmt_u64(n.seq_no as u64).as_str());
                            m.append(")/Some(");
                            m.append(fmt_u64(n.frame_len as u64).as_str());
                            m.append("), got ");
                            m.append(fmt_u64(stream_id as u64).as_str());
                            m.append("/");
                            m.append(fmt_u64(seq_no as u64).as_str());
                            m.append("/");
                            m.append(fmt_u64(frame_len as u64).as_str());
                            return Err(PlatformError::ResourceBusy(m));
                        }
                    },
                    None => {},
                }
                Err(
                    PlatformError::HardwareFailure(
                        slot_msg2(
                            "failed to release slot ",
                            slot_index,
                            ": expected state 3, got ",
                            current as u64,
                        ),
                    ),
                )
            },
        }
    }

    /// Copy the frame announced by `notification` out of the ring and release its slot.
    ///
    /// The notification's `slot_index` selects the slot. After the lease is taken
    /// the slot header must still show the notification's `(frame_len, seq_no,
    /// stream_id)`; a stale notification hands the slot back without advancing
    /// `read_seq` and is reported as `ResourceBusy` ("stale notification ...").
    /// A delivered frame advances `read_seq` by one.
    pub fn read_notified_slot_into_bytesmut(&mut self, notification: &FrameNotification) -> (res:
        PlatformResult<(FrameMetadata, BytesMut)>)
        ensures
            region_sized(final(self)@),
            copy_out_outcome(
                old(self)@,
                notification.slot_index as int,
                Some(*notification),
                res,
                final(self)@,
            ),
    {
        self.read_slot_into_bytesmut_inner(notification.slot_index, Some(notification))
    }

    pub fn read_slot_into_bytesmut_inner(
        &mut self,
        slot_index: u32,
        notification: Option<&FrameNotification>,
    ) -> (res: PlatformResult<(FrameMetadata, BytesMut)>)
        ensures
            region_sized(final(self)@),
            copy_out_outcome(
                old(self)@,
                slot_index as int,
                match notification {
                    Some(n) => Some(*n),
                    None => None,
                },
                res,
                final(self)@,
            ),
    {
        proof { use_type_invariant(&*self); }
        let ghost r = self@;
        let ghost i = slot_index as int;
        let frame = match self.read_slot(slot_index) {
            Ok(f) => f,
            Err(e) => { return Err(e); },
        };
        let slot_frame_len = frame.data.len() as u32;
        let slot_seq_no = frame.seq_no;
        let slot_stream_id = frame.stream_id;
        let timestamp_ms = frame.timestamp_ms;
        let frame_type = frame.frame_type;
        proof { lemma_slot_fields_after_state(r, i, VD_SLOT_READING); }
        match notification {
            Some(notif) => {
                if !notif.matches_slot(slot_frame_len, slot_seq_no, slot_stream_id) {
                    let _ = self.release_slot_without_advancing_read_seq(slot_index);
                    proof {
                        assert(after_clear(after_lease(r, i), i) =~= after_clear(r, i)) by {
                            lemma_with_u32(r, slot_offset(i), VD_SLOT_READING);
                            lemma_with_u32(after_lease(r, i), slot_offset(i), VD_SLOT_EMPTY);
                            lemma_with_u32(r, slot_offset(i), VD_SLOT_EMPTY);
                        }
                    }
                    let mut m = String::from_str("stale notification for slot ");
                    m.append(fmt_u64(slot_index as u64).as_str());
                    m.append(" (expected stream ");
                    m.append(fmt_u64(notif.stream_id as u64).as_str());
                    m.append(", seq ");
                    m.append(fmt_u64(notif.seq_no as u64).as_str());
                    m.append(", len ");
                    m.append(fmt_u64(notif.frame_len as u64).as_str());
                    m.append("; got stream ");
                    m.append(fmt_u64(slot_stream_id as u64).as_str());
                    m.append(", seq ");
                    m.append(fmt_u64(slot_seq_no as u64).as_str());
                    m.append(", len ");
                    m.append(fmt_u64(slot_frame_len as u64).as_str());
                    m.append(")");
                    return Err(PlatformError::ResourceBusy(m));
                }
            },
            None => {},
        }
        let cap = if frame.data.len() > 1024 { frame.data.len() } else { 1024 };
        let mut buf = bytes_mut_with_capacity(cap);
        bytes_mut_extend_from_slice(&mut buf, frame.data);
        let metadata = FrameMetadata {
            timestamp_ms,
            seq_no: slot_seq_no,
            frame_type: shm_frame_type_to_onvif(frame_type),
            remote_token: 0,
            stream_id: shm_stream_id_to_onvif(slot_stream_id),
        };
        let released = self.release_slot_with_expectation(slot_index, notification);
        proof {
            assert(after_release(after_lease(r, i), i) =~= after_release(r, i)) by {
                lemma_with_u32(r, slot_offset(i), VD_SLOT_READING);
                lemma_with_u32(after_lease(r, i), slot_offset(i), VD_SLOT_EMPTY);
                lemma_with_u32(r, slot_offset(i), VD_SLOT_EMPTY);
                assert(with_slot_state(after_lease(r, i), i, VD_SLOT_EMPTY) =~= with_slot_state(
                    r,
                    i,
                    VD_SLOT_EMPTY,
                ));
            }
        }
        match released {
            Ok(()) => Ok((metadata, buf)),
            Err(e) => Err(e),
        }
    }

    /// Lease slot `slot_index` (READY -> READING) and return its frame.
    ///
    /// A slot whose `frame_len` exceeds the slot capacity is handed back
    /// (state EMPTY) and reported as an invalid parameter.
    pub fn read_slot(&mut self, slot_index: u32) -> (res: PlatformResult<ShmFrame<'_>>)
        ensures
            region_sized(final(self)@),
            slot_index >= 8 ==> final(self)@ == old(self)@ && is_invalid_parameter(
                res,
                msg_index_out_of_range_max(slot_index as int),
            ),
            slot_index < 8 && slot_state(old(self)@, slot_index as int) != VD_SLOT_READY
                ==> final(self)@ == old(self)@ && is_invalid_parameter(
                res,
                msg_not_ready(slot_index as int, slot_state(old(self)@, slot_index as int)),
            ),
            slot_index < 8 && slot_state(old(self)@, slot_index as int) == VD_SLOT_READY
                && slot_frame_len(old(self)@, slot_index as int) > VD_SHM_SLOT_DATA_SIZE
                ==> final(self)@ == after_clear(old(self)@, slot_index as int) && is_invalid_parameter(
                res,
                msg_too_long(slot_index as int, slot_frame_len(old(self)@, slot_index as int)),
            ),
            slot_leasable(old(self)@, slot_index as int) ==> final(self)@ == after_lease(
                old(self)@,
                slot_index as int,
            ) && (res matches Ok(f) && f.data@ == slot_payload(
                old(self)@,
                slot_index as int,
                slot_frame_len(old(self)@, slot_index as int),
            ) && f.timestamp_ms == slot_timestamp_ms(old(self)@, slot_index as int) && f.seq_no
                == slot_seq_no(old(self)@, slot_index as int) && f.frame_type == slot_frame_type(
                old(self)@,
                slot_index as int,
            ) && f.stream_id == slot_stream_id(old(self)@, slot_index as int) && f.slot_index == slot_index),
    {
        proof { use_type_invariant(&*self); }
        if slot_index >= VD_SHM_SLOT_COUNT {
            return Err(PlatformError::InvalidParameter(index_msg(slot_index, " out of range (max 7)")));
        }
        let state = self.slot_field(slot_index, 0);
        if state != VD_SLOT_READY {
            return Err(
                PlatformError::InvalidParameter(
                    slot_msg("slot ", slot_index, " not ready for reading (state: ", state as u64, ")"),
                ),
            );
        }
        let prev = self.compare_exchange_state(slot_index, VD_SLOT_READY, VD_SLOT_READING);
        proof { lemma_slot_fields_after_state(old(self)@, slot_index as int, VD_SLOT_READING); }
        match prev {
            Ok(_) => {
                let frame_len = self.slot_field(slot_index, 4);
                if frame_len as usize > VD_SHM_SLOT_DATA_SIZE {
                    let ghost leased = self@;
                    let off = 64 + (slot_index as usize) * 131072;
                    write_u32_le(&mut self.region, off, VD_SLOT_EMPTY);
                    proof {
                        assert(with_u32(leased, off as int, VD_SLOT_EMPTY) =~= with_u32(
                            old(self)@,
                            off as int,
                            VD_SLOT_EMPTY,
                        )) by {
                            lemma_with_u32(old(self)@, off as int, VD_SLOT_READING);
                            lemma_with_u32(leased, off as int, VD_SLOT_EMPTY);
                            lemma_with_u32(old(self)@, off as int, VD_SLOT_EMPTY);
                        }
                    }
                    return Err(
                        PlatformError::InvalidParameter(
                            slot_msg(
                                "slot ",
                                slot_index,
                                " frame_len ",
                                frame_len as u64,
                                " exceeds slot capacity 131008",
                            ),
                        ),
                    );
                }
                let timestamp_ms = self.slot_field(slot_index, 8);
                let seq_no = self.slot_field(slot_index, 16);
                let frame_type = self.slot_field(slot_index, 20);
                let stream_id = self.slot_field(slot_index, 24);
                let start = 128 + (slot_index as usize) * 131072;
                let data = vstd::slice::slice_subrange(
                    self.region.as_slice(),
                    start,
                    start + frame_len as usize,
                );
                Ok(ShmFrame { data, timestamp_ms, seq_no, frame_type, stream_id, slot_index })
            },
            Err(current) => {
                let mut m = slot_msg("slot ", slot_index, " state changed during acquire (was 2, now ", current as u64, ")");
                Err(PlatformError::ResourceBusy(m))
            },
        }
    }
}


/// The ring's frame type codes: 1 is an I frame, 2 a B frame, 3 a Pi frame,
/// and 0 (with every unknown code) a P frame.
pub proof fn lemma_ring_frame_type_codes(raw: int)
    ensures
        (spec_frame_type_to_onvif(raw) == FrameType::VideoIFrame) <==> (raw == 1),
        (spec_frame_type_to_onvif(raw) == FrameType::VideoBFrame) <==> (raw == 2),
        (spec_frame_type_to_onvif(raw) == FrameType::VideoPiFrame) <==> (raw == 3),
        (spec_frame_type_to_onvif(raw) == FrameType::VideoPFrame) <==> !(1 <= raw <= 3),
{
}

/// The ring's stream ids: 0 is the main stream, 1 the sub stream, and every
/// other id audio.
pub proof fn lemma_ring_stream_id_codes(raw: int)
    ensures
        (spec_stream_id_to_onvif(raw) == StreamId::VideoMain) <==> (raw == 0),
        (spec_stream_id_to_onvif(raw) == StreamId::VideoSub) <==> (raw == 1),
        (spec_stream_id_to_onvif(raw) == StreamId::Audio) <==> (raw != 0 && raw != 1),
{
}

} // verus!
