//! Reader side of the shared-memory frame ring, protocol v2 (no daemon epoch).
//!
//! Same layout as the v3 ring in `hal::anyka::ipc::shm_ring`, except that a slot
//! header carries a 64-bit microsecond timestamp and the reader keeps its own
//! copy of `read_seq`, which it publishes on every release.

use vstd::prelude::*;

use bytes::BytesMut;

use crate::hal::anyka::ipc::shm_ring::{
    has_flag, lemma_slot_fields_after_state, region_sized, ring_flags, ring_magic, ring_read_seq,
    ring_version, ring_write_seq, slot_frame_len, slot_frame_type, slot_leasable, slot_offset,
    slot_payload, slot_seq_no, slot_state, slot_stream_id, spec_frame_type_to_onvif,
    spec_stream_id_to_onvif, with_slot_state, shm_frame_type_to_onvif, shm_stream_id_to_onvif,
};
use crate::hal::frame_buf::{bytes_mut_contents, bytes_mut_extend_from_slice, bytes_mut_with_capacity};
use crate::hal::wire::{
    le_bytes_u32, le_bytes_u64, le_u32_at, le_u64_at, lemma_with_u32, push_slice, push_u32_le,
    push_u64_le, read_u32_le, read_u64_le, with_u32, write_u32_le,
};
use crate::platform::frame::{FrameMetadata, FrameType, StreamId};
use crate::platform::{
    is_hardware_failure, is_invalid_parameter, is_resource_busy, PlatformError, PlatformResult,
};
use crate::text::{dec_nat, fmt_hex_u32, fmt_u64, hex_alt};

verus! {

/// Magic value identifying the shared memory region ("VDFS").
pub const VD_SHM_MAGIC: u32 = 0x5644_4653;
/// Version of the shared memory protocol (v2 adds diagnostic counters).
pub const VD_SHM_VERSION: u32 = 2;
/// Minimum supported version.
pub const VD_SHM_VERSION_MIN: u32 = 1;
/// Number of slots in the ring buffer.
pub const VD_SHM_SLOT_COUNT: u32 = 8;
/// Size of each slot (header + data).
pub const VD_SHM_SLOT_SIZE: usize = 131072;
/// Size of the ring header structure.
pub const VD_SHM_HEADER_SIZE: usize = 64;
/// Size of each slot header.
pub const VD_SHM_SLOT_HDR_SIZE: usize = 64;
/// Size of the data portion of each slot.
pub const VD_SHM_SLOT_DATA_SIZE: usize = 131008;
/// Total size of the shared memory region.
pub const VD_SHM_TOTAL_SIZE: usize = 1048640;

/// Slot is empty and available for writing.
pub const VD_SLOT_EMPTY: u32 = 0;
/// Daemon is currently writing to the slot.
pub const VD_SLOT_WRITING: u32 = 1;
/// Slot contains a complete frame, ready for reading.
pub const VD_SLOT_READY: u32 = 2;
/// The reader is currently reading from the slot.
pub const VD_SLOT_READING: u32 = 3;

/// Daemon has shut down the ring buffer.
pub const VD_FLAG_SHUTDOWN: u32 = 1;
/// Ring buffer overflow occurred (frames were dropped).
pub const VD_FLAG_OVERFLOW: u32 = 2;

/// This is the last fragment of a multi-packet frame.
pub const VD_NOTIFY_LAST_FRAGMENT: u32 = 1;
/// Socket fallback notification (daemon couldn't use shm).
pub const VD_NOTIFY_SOCKET_FALLBACK: u32 = 2;
/// Frame was intentionally dropped by the daemon.
pub const VD_NOTIFY_FRAME_DROPPED: u32 = 4;

/// `timestamp_us` of slot `i` (64-bit in the v2 slot header).
pub open spec fn slot_timestamp_us(r: Seq<u8>, i: int) -> int {
    le_u64_at(r, slot_offset(i) + 8)
}

pub open spec fn msg_index_out_of_range_max(i: int) -> Seq<char> {
    "slot index "@ + dec_nat(i as nat) + " out of range (max 7)"@
}

pub open spec fn msg_index_out_of_range(i: int) -> Seq<char> {
    "slot index "@ + dec_nat(i as nat) + " out of range"@
}

pub open spec fn msg_not_ready(i: int, state: int) -> Seq<char> {
    "slot "@ + dec_nat(i as nat) + " not ready for reading (state: "@ + dec_nat(state as nat) + ")"@
}

pub open spec fn msg_too_long(i: int, len: int) -> Seq<char> {
    "slot "@ + dec_nat(i as nat) + " frame_len "@ + dec_nat(len as nat)
        + " exceeds slot capacity 131008"@
}

pub open spec fn msg_release_failed(i: int, state: int) -> Seq<char> {
    "failed to release slot "@ + dec_nat(i as nat) + ": expected state 3, got "@ + dec_nat(
        state as nat,
    )
}

pub open spec fn msg_bad_size(got: int) -> Seq<char> {
    "invalid shm size: expected 1048640, got "@ + dec_nat(got as nat)
}

pub open spec fn msg_bad_magic(got: int) -> Seq<char> {
    "invalid shm magic: expected 0x56444653, got "@ + hex_alt(got as nat)
}

pub open spec fn msg_bad_version(got: int) -> Seq<char> {
    "unsupported shm version: expected 1-2, got "@ + dec_nat(got as nat)
}

fn slot_msg(head: &str, i: u32, mid: &str, v: u64, tail: &str) -> (s: String)
    ensures
        s@ == head@ + dec_nat(i as nat) + mid@ + dec_nat(v as nat) + tail@,
{
    let mut s = String::from_str(head);
    s.append(fmt_u64(i as u64).as_str());
    s.append(mid);
    s.append(fmt_u64(v).as_str());
    s.append(tail);
    s
}

fn index_msg(i: u32, tail: &str) -> (s: String)
    ensures
        s@ == "slot index "@ + dec_nat(i as nat) + tail@,
{
    let mut s = String::from_str("slot index ");
    s.append(fmt_u64(i as u64).as_str());
    s.append(tail);
    s
}

/// Frame notification received from the daemon (12 bytes).
#[derive(Debug, Clone, Copy, PartialEq, Eq, Structural)]
pub struct FrameNotification {
    /// Index of the slot containing the frame.
    pub slot_index: u32,
    /// Length of the frame data.
    pub frame_len: u32,
    /// Notification flags.
    pub flags: u32,
}

impl FrameNotification {
    /// Parse a frame notification from its 12 little-endian wire bytes.
    pub fn from_bytes(bytes: &[u8; 12]) -> (n: Self)
        ensures
            n.slot_index == le_u32_at(bytes@, 0),
            n.frame_len == le_u32_at(bytes@, 4),
            n.flags == le_u32_at(bytes@, 8),
    {
        let s = bytes.as_slice();
        FrameNotification {
            slot_index: read_u32_le(s, 0),
            frame_len: read_u32_le(s, 4),
            flags: read_u32_le(s, 8),
        }
    }

    /// Whether the daemon asks the caller to fall back to a socket read.
    pub fn is_socket_fallback(&self) -> (b: bool)
        ensures
            b == has_flag(self.flags as int, 2),
    {
        let f = self.flags;
        assert((f & 2 != 0) == ((f / 2) % 2 == 1)) by (bit_vector);
        f & VD_NOTIFY_SOCKET_FALLBACK != 0
    }

    /// Whether this is the last fragment of a multi-packet frame.
    pub fn is_last_fragment(&self) -> (b: bool)
        ensures
            b == has_flag(self.flags as int, 1),
    {
        let f = self.flags;
        assert((f & 1 != 0) == ((f / 1) % 2 == 1)) by (bit_vector);
        f & VD_NOTIFY_LAST_FRAGMENT != 0
    }

    /// Whether the daemon intentionally dropped this frame.
    pub fn is_frame_dropped(&self) -> (b: bool)
        ensures
            b == has_flag(self.flags as int, 4),
    {
        let f = self.flags;
        assert((f & 4 != 0) == ((f / 4) % 2 == 1)) by (bit_vector);
        f & VD_NOTIFY_FRAME_DROPPED != 0
    }
}

/// Borrowed frame data from the ring, valid while the slot is leased.
pub struct ShmFrame<'a> {
    /// Frame data (the first `frame_len` bytes of the slot payload).
    pub data: &'a [u8],
    /// Timestamp in microseconds.
    pub timestamp_us: u64,
    /// Frame sequence number.
    pub seq_no: u32,
    /// Frame type (raw value from the daemon).
    pub frame_type: u32,
    /// Stream identifier.
    pub stream_id: u32,
    /// Slot the frame was leased from.
    pub slot_index: u32,
}

impl<'a> ShmFrame<'a> {
    /// Convert the raw frame type to a [`FrameType`].
    pub fn frame_type_onvif(&self) -> (t: FrameType)
        ensures
            t == spec_frame_type_to_onvif(self.frame_type as int),
    {
        shm_frame_type_to_onvif(self.frame_type)
    }

    /// Convert the raw stream id to a [`StreamId`].
    pub fn stream_id_onvif(&self) -> (s: StreamId)
        ensures
            s == spec_stream_id_to_onvif(self.stream_id as int),
    {
        shm_stream_id_to_onvif(self.stream_id)
    }
}

/// The region after a delivered frame in slot `i` is released by a reader whose
/// own sequence counter stood at `local`: the slot is EMPTY and `read_seq`
/// holds `local + 1`.
pub open spec fn after_release_v2(r: Seq<u8>, i: int, local: int) -> Seq<u8> {
    with_u32(with_slot_state(r, i, VD_SLOT_EMPTY), 24, (local + 1) as u32)
}

/// The ring header of the v2 layout (64 bytes).
#[derive(Debug, Clone, Copy)]
pub struct RingHeader {
    /// Magic value ([`VD_SHM_MAGIC`]).
    pub magic: u32,
    /// Protocol version.
    pub version: u32,
    /// Total shared memory size.
    pub total_size: u32,
    /// Number of slots.
    pub slot_count: u32,
    /// Size of the data portion of a slot.
    pub slot_data_size: u32,
    /// Sequence number of the last written frame.
    pub write_seq: u32,
    /// Sequence number of the last released frame.
    pub read_seq: u32,
    /// Ring flags.
    pub flags: u32,
    /// Ring-full events (version >= 2).
    pub overflow_count: u32,
    /// P-frame evictions (version >= 2).
    pub eviction_count: u32,
    /// Socket fallbacks (version >= 2).
    pub socket_fallback_count: u32,
    /// P-frames dropped during overflow (version >= 2).
    pub dropped_count: u32,
    /// Padding to 64 bytes.
    pub _padding: [u8; 16],
}

impl RingHeader {
    /// The header's bytes as they lie in the region: twelve u32 LE fields, then the padding.
    pub fn to_bytes(&self) -> (b: Vec<u8>)
        ensures
            b@ == le_bytes_u32(self.magic) + le_bytes_u32(self.version) + le_bytes_u32(
                self.total_size,
            ) + le_bytes_u32(self.slot_count) + le_bytes_u32(self.slot_data_size) + le_bytes_u32(
                self.write_seq,
            ) + le_bytes_u32(self.read_seq) + le_bytes_u32(self.flags) + le_bytes_u32(
                self.overflow_count,
            ) + le_bytes_u32(self.eviction_count) + le_bytes_u32(self.socket_fallback_count)
                + le_bytes_u32(self.dropped_count) + self._padding@,
    {
        let mut b: Vec<u8> = Vec::new();
        push_u32_le(&mut b, self.magic);
        push_u32_le(&mut b, self.version);
        push_u32_le(&mut b, self.total_size);
        push_u32_le(&mut b, self.slot_count);
        push_u32_le(&mut b, self.slot_data_size);
        push_u32_le(&mut b, self.write_seq);
        push_u32_le(&mut b, self.read_seq);
        push_u32_le(&mut b, self.flags);
        push_u32_le(&mut b, self.overflow_count);
        push_u32_le(&mut b, self.eviction_count);
        push_u32_le(&mut b, self.socket_fallback_count);
        push_u32_le(&mut b, self.dropped_count);
        push_slice(&mut b, self._padding.as_slice());
        b
    }
}

/// A slot header of the v2 layout (64 bytes).
#[derive(Debug, Clone, Copy)]
pub struct SlotHeader {
    /// Slot state.
    pub state: u32,
    /// Length of the frame data in bytes.
    pub frame_len: u32,
    /// Timestamp in microseconds.
    pub timestamp_us: u64,
    /// Frame sequence number.
    pub seq_no: u32,
    /// Frame type (raw daemon code).
    pub frame_type: u32,
    /// Stream identifier (raw daemon code).
    pub stream_id: u32,
    /// Checksum of the frame data.
    pub checksum: u32,
    /// Monotonic clock at ring write time.
    pub wall_clock_us: u64,
    /// Delta from the previous frame in microseconds.
    pub inter_frame_us: u32,
    /// Reserved.
    pub _reserved: u32,
    /// Padding to 64 bytes.
    pub _padding: [u8; 16],
}

impl SlotHeader {
    /// The header's bytes as they lie in the region.
    pub fn to_bytes(&self) -> (b: Vec<u8>)
        ensures
            b@ == le_bytes_u32(self.state) + le_bytes_u32(self.frame_len) + le_bytes_u64(
                self.timestamp_us,
            ) + le_bytes_u32(self.seq_no) + le_bytes_u32(self.frame_type) + le_bytes_u32(
                self.stream_id,
            ) + le_bytes_u32(self.checksum) + le_bytes_u64(self.wall_clock_us) + le_bytes_u32(
                self.inter_frame_us,
            ) + le_bytes_u32(self._reserved) + self._padding@,
    {
        let mut b: Vec<u8> = Vec::new();
        push_u32_le(&mut b, self.state);
        push_u32_le(&mut b, self.frame_len);
        push_u64_le(&mut b, self.timestamp_us);
        push_u32_le(&mut b, self.seq_no);
        push_u32_le(&mut b, self.frame_type);
        push_u32_le(&mut b, self.stream_id);
        push_u32_le(&mut b, self.checksum);
        push_u64_le(&mut b, self.wall_clock_us);
        push_u32_le(&mut b, self.inter_frame_us);
        push_u32_le(&mut b, self._reserved);
        push_slice(&mut b, self._padding.as_slice());
        b
    }
}

/// A step of the reader's own read counter: it moves from `before` to
/// `after`, by one exactly when the step released a frame.
pub open spec fn counter_step(before: u32, after: u32, released: bool) -> bool {
    after == before + if released {
        1int
    } else {
        0int
    }
}

/// How many of `released` are true.
pub open spec fn release_count(released: Seq<bool>) -> nat
    decreases released.len(),
{
    if released.len() == 0 {
        0
    } else {
        release_count(released.drop_last()) + if released.last() {
            1nat
        } else {
            0nat
        }
    }
}

/// The reader's `read_seq` is the header's `read_seq` at open plus the
/// number of releases this reader made since, whatever the daemon wrote to
/// the shared header meanwhile. `counters[0]` is the counter [`ShmRingReader::open`]
/// starts from (the header's `read_seq`); each later counter follows one
/// call, which is a [`counter_step`] by the contracts of `release_slot` and
/// `read_slot_into_bytesmut` and leaves the counter alone in every other
/// call (`read_slot`, `apply_producer_word`).
pub proof fn lemma_read_seq_counts_releases(counters: Seq<u32>, released: Seq<bool>)
    requires
        counters.len() == released.len() + 1,
        forall|j: int| 0 <= j < released.len() ==> #[trigger] counter_step(counters[j], counters[j + 1], released[j]),
    ensures
        counters.last() == counters[0] + release_count(released),
    decreases released.len(),
{
    if released.len() > 0 {
        let k = released.len() - 1;
        lemma_read_seq_counts_releases(counters.drop_last(), released.drop_last());
        assert(counters.drop_last()[0] == counters[0]);
        assert forall|j: int| 0 <= j < released.drop_last().len() implies #[trigger] counter_step(
            counters.drop_last()[j],
            counters.drop_last()[j + 1],
            released.drop_last()[j],
        ) by {
            assert(counter_step(counters[j], counters[j + 1], released[j]));
        }
        assert(counter_step(counters[k], counters[k + 1], released[k]));
    }
}

/// The read-sequence law on readers: after a run of calls on a reader, each
/// a [`ShmRingReader::step_to`] as the contracts of `apply_producer_word`,
/// `read_slot`, `release_slot` and `read_slot_into_bytesmut` state it,
/// `read_seq()` is its value at the start (at open, the header's
/// `read_seq`) plus the number of calls that released a frame, whatever the
/// daemon wrote to the shared header meanwhile.
pub proof fn lemma_reader_read_seq_counts_releases(readers: Seq<ShmRingReader>, released: Seq<bool>)
    requires
        readers.len() == released.len() + 1,
        forall|j: int| 0 <= j < released.len() ==> #[trigger] readers[j].step_to(readers[j + 1], released[j]),
    ensures
        readers.last().local_seq() == readers[0].local_seq() + release_count(released),
{
    let counters = Seq::new(readers.len(), |i: int| readers[i].local_seq());
    assert forall|j: int| 0 <= j < released.len() implies #[trigger] counter_step(
        counters[j],
        counters[j + 1],
        released[j],
    ) by {
        assert(readers[j].step_to(readers[j + 1], released[j]));
    }
    lemma_read_seq_counts_releases(counters, released);
}

/// How many of the first `n` slots are READY (hold a complete frame).
pub open spec fn ready_slots(r: Seq<u8>, n: int) -> nat
    decreases n,
{
    if n <= 0 {
        0
    } else {
        ready_slots(r, n - 1) + if slot_state(r, n - 1) == VD_SLOT_READY {
            1nat
        } else {
            0nat
        }
    }
}

/// Frames written but not yet released, as the v2 reader counts them.
pub open spec fn pending_frames(r: Seq<u8>, local: int) -> int {
    (ring_write_seq(r) - local) % 4294967296
}

/// Releasing a delivered frame in slot `i` empties that slot, publishes the
/// reader's advanced counter as `read_seq`, leaves `write_seq` alone, and so
/// lowers the count of pending frames by exactly one (wrapping).
pub proof fn lemma_v2_release_takes_one_pending_frame(r: Seq<u8>, i: int, local: int)
    requires
        region_sized(r),
        0 <= i < 8,
        0 <= local < u32::MAX,
    ensures
        region_sized(after_release_v2(r, i, local)),
        slot_state(after_release_v2(r, i, local), i) == VD_SLOT_EMPTY,
        ring_read_seq(after_release_v2(r, i, local)) == local + 1,
        ring_write_seq(after_release_v2(r, i, local)) == ring_write_seq(r),
        pending_frames(after_release_v2(r, i, local), local + 1) == if pending_frames(r, local) > 0 {
            pending_frames(r, local) - 1
        } else {
            4294967295
        },
{
    let o = slot_offset(i);
    let w1 = with_slot_state(r, i, VD_SLOT_EMPTY);
    lemma_with_u32(r, o, VD_SLOT_EMPTY);
    crate::hal::wire::lemma_with_u32_other(r, o, VD_SLOT_EMPTY, 20);
    lemma_with_u32(w1, 24, (local + 1) as u32);
    crate::hal::wire::lemma_with_u32_other(w1, 24, (local + 1) as u32, o);
    crate::hal::wire::lemma_with_u32_other(w1, 24, (local + 1) as u32, 20);
}

/// Reader for the v2 shared memory ring buffer.
pub struct ShmRingReader {
    region: Vec<u8>,
    local_read_seq: u32,
}

impl View for ShmRingReader {
    type V = Seq<u8>;

    closed spec fn view(&self) -> Seq<u8> {
        self.region@
    }
}

impl ShmRingReader {
    #[verifier::type_invariant]
    spec fn inv(self) -> bool {
        region_sized(self.region@)
    }

    /// The reader's own count of released frames.
    pub closed spec fn local_seq(&self) -> u32 {
        self.local_read_seq
    }

    /// One call took the reader from `self` to `next`: its read counter
    /// moved by one exactly when the call `released` a frame.
    pub open spec fn step_to(self, next: Self, released: bool) -> bool {
        counter_step(self.local_seq(), next.local_seq(), released)
    }

    /// Validate a region image and wrap it in a reader; the reader's sequence
    /// counter starts at the header's `read_seq`.
    ///
    /// `image` is `None` when the daemon does not use shared memory; the result
    /// is then `Ok(None)`.
    pub fn open(image: Option<Vec<u8>>) -> (res: PlatformResult<Option<Self>>)
        ensures
            image is None ==> res matches Ok(None),
            image matches Some(b) ==> {
                let r = b@;
                &&& !region_sized(r) ==> is_invalid_parameter(res, msg_bad_size(r.len() as int))
                &&& region_sized(r) && ring_magic(r) != VD_SHM_MAGIC ==> is_invalid_parameter(
                    res,
                    msg_bad_magic(ring_magic(r)),
                )
                &&& region_sized(r) && ring_magic(r) == VD_SHM_MAGIC && !(1 <= ring_version(r) <= 2)
                    ==> is_invalid_parameter(res, msg_bad_version(ring_version(r)))
                &&& region_sized(r) && ring_magic(r) == VD_SHM_MAGIC && 1 <= ring_version(r) <= 2
                    ==> (res matches Ok(Some(reader)) && reader@ == r && reader.local_seq()
                    == ring_read_seq(r))
            },
    {
        match image {
            None => Ok(None),
            Some(region) => {
                let size = region.len();
                if size != VD_SHM_TOTAL_SIZE {
                    let mut m = String::from_str("invalid shm size: expected 1048640, got ");
                    m.append(fmt_u64(size as u64).as_str());
                    return Err(PlatformError::InvalidParameter(m));
                }
                let magic = read_u32_le(region.as_slice(), 0);
                if magic != VD_SHM_MAGIC {
                    let mut m = String::from_str("invalid shm magic: expected 0x56444653, got ");
                    m.append(fmt_hex_u32(magic).as_str());
                    return Err(PlatformError::InvalidParameter(m));
                }
                let version = read_u32_le(region.as_slice(), 4);
                if version < VD_SHM_VERSION_MIN || version > VD_SHM_VERSION {
                    let mut m = String::from_str("unsupported shm version: expected 1-2, got ");
                    m.append(fmt_u64(version as u64).as_str());
                    return Err(PlatformError::InvalidParameter(m));
                }
                let local_read_seq = read_u32_le(region.as_slice(), 24);
                Ok(Some(ShmRingReader { region, local_read_seq }))
            },
        }
    }

    /// Whether the daemon has shut the ring buffer down.
    pub fn is_shutdown(&self) -> (b: bool)
        ensures
            b == has_flag(ring_flags(self@), 1),
    {
        proof { use_type_invariant(self); }
        let f = read_u32_le(self.region.as_slice(), 28);
        assert((f & 1 != 0) == ((f / 1) % 2 == 1)) by (bit_vector);
        f & VD_FLAG_SHUTDOWN != 0
    }

    /// Whether the daemon reported a ring overflow (frames were dropped).
    pub fn has_overflow(&self) -> (b: bool)
        ensures
            b == has_flag(ring_flags(self@), 2),
    {
        proof { use_type_invariant(self); }
        let f = read_u32_le(self.region.as_slice(), 28);
        assert((f & 2 != 0) == ((f / 2) % 2 == 1)) by (bit_vector);
        f & VD_FLAG_OVERFLOW != 0
    }

    /// `(overflow_count, eviction_count, socket_fallback_count, dropped_count)`;
    /// all zero for a version-1 ring.
    pub fn diagnostic_counters(&self) -> (c: (u32, u32, u32, u32))
        ensures
            ring_version(self@) < 2 ==> c == (0u32, 0u32, 0u32, 0u32),
            ring_version(self@) >= 2 ==> c.0 == le_u32_at(self@, 32) && c.1 == le_u32_at(self@, 36)
                && c.2 == le_u32_at(self@, 40) && c.3 == le_u32_at(self@, 44),
    {
        proof { use_type_invariant(self); }
        let s = self.region.as_slice();
        let version = read_u32_le(s, 4);
        if version < 2 {
            return (0, 0, 0, 0);
        }
        (read_u32_le(s, 32), read_u32_le(s, 36), read_u32_le(s, 40), read_u32_le(s, 44))
    }

    /// The daemon's write sequence number.
    pub fn write_seq(&self) -> (w: u32)
        ensures
            w == ring_write_seq(self@),
    {
        proof { use_type_invariant(self); }
        read_u32_le(self.region.as_slice(), 20)
    }

    /// The reader's own read sequence number.
    pub fn read_seq(&self) -> (r: u32)
        ensures
            r == self.local_seq(),
    {
        self.local_read_seq
    }

    /// The number of available frames: the slots in READY state (a snapshot).
    pub fn available_frames(&self) -> (n: u32)
        ensures
            n == ready_slots(self@, 8),
    {
        let mut count: u32 = 0;
        let mut i: u32 = 0;
        while i < VD_SHM_SLOT_COUNT
            invariant
                i <= 8,
                count == ready_slots(self@, i as int),
                count <= i,
            decreases 8 - i,
        {
            if self.slot_field(i, 0) == VD_SLOT_READY {
                count = count + 1;
            }
            i = i + 1;
        }
        count
    }

    fn slot_field(&self, slot_index: u32, field: usize) -> (v: u32)
        requires
            slot_index < 8,
            field <= 60,
        ensures
            v == le_u32_at(self@, slot_offset(slot_index as int) + field),
    {
        proof { use_type_invariant(self); }
        read_u32_le(self.region.as_slice(), 64 + (slot_index as usize) * 131072 + field)
    }

    fn store_u32(&mut self, off: usize, v: u32)
        requires
            off + 4 <= VD_SHM_TOTAL_SIZE,
        ensures
            final(self)@ == with_u32(old(self)@, off as int, v),
            final(self).local_seq() == old(self).local_seq(),
    {
        proof {
            use_type_invariant(&*self);
            lemma_with_u32(self@, off as int, v);
        }
        write_u32_le(&mut self.region, off, v);
    }

    /// Apply a write of the producer to the shared region: the 32-bit word at
    /// `offset` becomes `value` (LE), everything else is left as it is.
    pub fn apply_producer_word(&mut self, offset: usize, value: u32)
        requires
            offset + 4 <= VD_SHM_TOTAL_SIZE,
        ensures
            final(self)@ == with_u32(old(self)@, offset as int, value),
            final(self).local_seq() == old(self).local_seq(),
            old(self).step_to(*final(self), false),
    {
        self.store_u32(offset, value);
    }

    /// Lease slot `slot_index` (READY -> READING) and return its frame.
    pub fn read_slot(&mut self, slot_index: u32) -> (res: PlatformResult<ShmFrame<'_>>)
        ensures
            region_sized(final(self)@),
            final(self).local_seq() == old(self).local_seq(),
            old(self).step_to(*final(self), false),
            slot_index >= 8 ==> final(self)@ == old(self)@ && is_invalid_parameter(
                res,
                msg_index_out_of_range_max(slot_index as int),
            ),
            slot_index < 8 && slot_state(old(self)@, slot_index as int) != VD_SLOT_READY
                ==> final(self)@ == old(self)@ && is_invalid_parameter(
                res,
                msg_not_ready(slot_index as int, slot_state(old(self)@, slot_index as int)),
            ),
            slot_index < 8 && slot_state(old(self)@, slot_index as int) == VD_SLOT_READY
                && slot_frame_len(old(self)@, slot_index as int) > VD_SHM_SLOT_DATA_SIZE
                ==> final(self)@ == with_slot_state(old(self)@, slot_index as int, VD_SLOT_EMPTY)
                && is_invalid_parameter(
                res,
                msg_too_long(slot_index as int, slot_frame_len(old(self)@, slot_index as int)),
            ),
            slot_leasable(old(self)@, slot_index as int) ==> final(self)@ == with_slot_state(
                old(self)@,
                slot_index as int,
                VD_SLOT_READING,
            ) && (res matches Ok(f) && f.data@ == slot_payload(
                old(self)@,
                slot_index as int,
                slot_frame_len(old(self)@, slot_index as int),
            ) && f.timestamp_us == slot_timestamp_us(old(self)@, slot_index as int) && f.seq_no
                == slot_seq_no(old(self)@, slot_index as int) && f.frame_type == slot_frame_type(
                old(self)@,
                slot_index as int,
            ) && f.stream_id == slot_stream_id(old(self)@, slot_index as int) && f.slot_index == slot_index),
    {
        proof { use_type_invariant(&*self); }
        if slot_index >= VD_SHM_SLOT_COUNT {
            return Err(PlatformError::InvalidParameter(index_msg(slot_index, " out of range (max 7)")));
        }
        let off = 64 + (slot_index as usize) * 131072;
        let state = self.slot_field(slot_index, 0);
        if state != VD_SLOT_READY {
            return Err(
                PlatformError::InvalidParameter(
                    slot_msg("slot ", slot_index, " not ready for reading (state: ", state as u64, ")"),
                ),
            );
        }
        let ghost r = self@;
        self.store_u32(off, VD_SLOT_READING);
        proof {
            lemma_slot_fields_after_state(r, slot_index as int, VD_SLOT_READING);
            let o = slot_offset(slot_index as int);
            crate::hal::wire::lemma_with_u32_other(r, o, VD_SLOT_READING, o + 12);
        }
        let frame_len = self.slot_field(slot_index, 4);
        if frame_len as usize > VD_SHM_SLOT_DATA_SIZE {
            self.store_u32(off, VD_SLOT_EMPTY);
            proof {
                lemma_with_u32(r, off as int, VD_SLOT_READING);
                lemma_with_u32(with_u32(r, off as int, VD_SLOT_READING), off as int, VD_SLOT_EMPTY);
                lemma_with_u32(r, off as int, VD_SLOT_EMPTY);
                assert(self@ =~= with_u32(r, off as int, VD_SLOT_EMPTY));
            }
            return Err(
                PlatformError::InvalidParameter(
                    slot_msg("slot ", slot_index, " frame_len ", frame_len as u64, " exceeds slot capacity 131008"),
                ),
            );
        }
        let timestamp_us = read_u64_le(self.region.as_slice(), off + 8);
        let seq_no = self.slot_field(slot_index, 16);
        let frame_type = self.slot_field(slot_index, 20);
        let stream_id = self.slot_field(slot_index, 24);
        let start = off + 64;
        let data = vstd::slice::slice_subrange(self.region.as_slice(), start, start + frame_len as usize);
        Ok(ShmFrame { data, timestamp_us, seq_no, frame_type, stream_id, slot_index })
    }

    /// Release a leased slot (READING -> EMPTY), advance the reader's sequence
    /// counter by one and publish it as the ring's `read_seq`.
    pub fn release_slot(&mut self, slot_index: u32) -> (res: PlatformResult<()>)
        requires
            slot_index < 8 && slot_state(old(self)@, slot_index as int) == VD_SLOT_READING
                ==> old(self).local_seq() < u32::MAX,
        ensures
            region_sized(final(self)@),
            old(self).step_to(*final(self), res is Ok),
            slot_index >= 8 ==> final(self)@ == old(self)@ && final(self).local_seq() == old(
                self,
            ).local_seq() && is_invalid_parameter(res, msg_index_out_of_range(slot_index as int)),
            slot_index < 8 && slot_state(old(self)@, slot_index as int) == VD_SLOT_READING ==> res
                is Ok && final(self)@ == after_release_v2(
                old(self)@,
                slot_index as int,
                old(self).local_seq() as int,
            ) && final(self).local_seq() == old(self).local_seq() + 1,
            slot_index < 8 && slot_state(old(self)@, slot_index as int) != VD_SLOT_READING
                ==> final(self)@ == old(self)@ && final(self).local_seq() == old(self).local_seq()
                && is_hardware_failure(
                res,
                msg_release_failed(slot_index as int, slot_state(old(self)@, slot_index as int)),
            ),
    {
        proof { use_type_invariant(&*self); }
        if slot_index >= VD_SHM_SLOT_COUNT {
            return Err(PlatformError::InvalidParameter(index_msg(slot_index, " out of range")));
        }
        let current = self.slot_field(slot_index, 0);
        if current == VD_SLOT_READING {
            let ghost r = self@;
            self.store_u32(64 + (slot_index as usize) * 131072, VD_SLOT_EMPTY);
            proof { lemma_slot_fields_after_state(r, slot_index as int, VD_SLOT_EMPTY); }
            self.local_read_seq = self.local_read_seq + 1;
            let l = self.local_read_seq;
            self.store_u32(24, l);
            Ok(())
        } else {
            let mut m = String::from_str("failed to release slot ");
            m.append(fmt_u64(slot_index as u64).as_str());
            m.append(": expected state 3, got ");
            m.append(fmt_u64(current as u64).as_str());
            Err(PlatformError::HardwareFailure(m))
        }
    }

    /// Copy the frame in slot `slot_index` out of the ring and release the slot.
    pub fn read_slot_into_bytesmut(&mut self, slot_index: u32) -> (res: PlatformResult<
        (FrameMetadata, BytesMut),
    >)
        requires
            slot_leasable(old(self)@, slot_index as int) ==> old(self).local_seq() < u32::MAX,
        ensures
            region_sized(final(self)@),
            old(self).step_to(*final(self), res is Ok),
            !slot_leasable(old(self)@, slot_index as int) ==> final(self).local_seq() == old(self).local_seq(),
            slot_index >= 8 ==> final(self)@ == old(self)@ && is_invalid_parameter(
                res,
                msg_index_out_of_range_max(slot_index as int),
            ),
            slot_index < 8 && slot_state(old(self)@, slot_index as int) != VD_SLOT_READY
                ==> final(self)@ == old(self)@ && is_invalid_parameter(
                res,
                msg_not_ready(slot_index as int, slot_state(old(self)@, slot_index as int)),
            ),
            slot_index < 8 && slot_state(old(self)@, slot_index as int) == VD_SLOT_READY
                && slot_frame_len(old(self)@, slot_index as int) > VD_SHM_SLOT_DATA_SIZE
                ==> final(self)@ == with_slot_state(old(self)@, slot_index as int, VD_SLOT_EMPTY)
                && is_invalid_parameter(
                res,
                msg_too_long(slot_index as int, slot_frame_len(old(self)@, slot_index as int)),
            ),
            slot_leasable(old(self)@, slot_index as int) ==> final(self)@ == after_release_v2(
                old(self)@,
                slot_index as int,
                old(self).local_seq() as int,
            ) && final(self).local_seq() == old(self).local_seq() + 1 && (res matches Ok(
                (meta, buf),
            ) && meta.timestamp_ms == slot_timestamp_us(old(self)@, slot_index as int) / 1000
                && meta.seq_no == slot_seq_no(old(self)@, slot_index as int) && meta.frame_type
                == spec_frame_type_to_onvif(slot_frame_type(old(self)@, slot_index as int))
                && meta.remote_token == 0 && bytes_mut_contents(buf) == slot_payload(
                old(self)@,
                slot_index as int,
                slot_frame_len(old(self)@, slot_index as int),
            )),
    {
        proof { use_type_invariant(&*self); }
        let ghost r = self@;
        let frame = match self.read_slot(slot_index) {
            Ok(f) => f,
            Err(e) => { return Err(e); },
        };
        let len = frame.data.len();
        let cap = if len > 1024 { len } else { 1024 };
        let mut buf = bytes_mut_with_capacity(cap);
        bytes_mut_extend_from_slice(&mut buf, frame.data);
        let metadata = FrameMetadata {
            timestamp_ms: frame.timestamp_us / 1000,
            seq_no: frame.seq_no,
            frame_type: shm_frame_type_to_onvif(frame.frame_type),
            remote_token: 0,
        };
        proof { lemma_slot_fields_after_state(r, slot_index as int, VD_SLOT_READING); }
        let released = self.release_slot(slot_index);
        proof {
            let i = slot_index as int;
            lemma_with_u32(r, slot_offset(i), VD_SLOT_READING);
            lemma_with_u32(with_slot_state(r, i, VD_SLOT_READING), slot_offset(i), VD_SLOT_EMPTY);
            lemma_with_u32(r, slot_offset(i), VD_SLOT_EMPTY);
            assert(with_slot_state(with_slot_state(r, i, VD_SLOT_READING), i, VD_SLOT_EMPTY)
                =~= with_slot_state(r, i, VD_SLOT_EMPTY));
        }
        match released {
            Ok(()) => Ok((metadata, buf)),
            Err(e) => Err(e),
        }
    }
}

} // verus!
