//! Properties of the v3 ring reader that span operations: what delivering a
//! frame consumes, what handing a slot back leaves alone, and that a frame the
//! daemon publishes reads back unchanged through its notification.

use vstd::prelude::*;

use bytes::BytesMut;

use crate::hal::anyka::ipc::shm_ring::{
    after_clear, after_release, copy_out_outcome, notification_current, region_sized,
    ring_read_seq, ring_write_seq, slot_frame_len, slot_leasable, slot_metadata, slot_offset,
    slot_payload, slot_seq_no, slot_state, slot_stream_id, spec_frame_type_to_onvif,
    spec_stream_id_to_onvif, with_slot_state, FrameNotification, VD_SHM_SLOT_DATA_SIZE,
    VD_SLOT_EMPTY, VD_SLOT_READY,
};
use crate::hal::frame_buf::bytes_mut_contents;
use crate::hal::wire::{
    le_u32_at, lemma_with_bytes, lemma_with_u32, lemma_with_u32_other, lemma_with_u32_range,
    with_bytes, with_u32,
};
use crate::platform::common::FrameMetadata;
use crate::platform::PlatformResult;

verus! {

/// Releasing a delivered frame from slot `i` changes exactly two words of the
/// region: the slot's state becomes EMPTY and `read_seq` advances by one
/// (wrapping) from the value it holds, so an advance the daemon made itself is
/// kept. Every other byte, `write_seq`, the other slots and every payload
/// included, is unchanged.
pub proof fn lemma_release_consumes_exactly_one_frame(r: Seq<u8>, i: int)
    requires
        region_sized(r),
        0 <= i < 8,
    ensures
        region_sized(after_release(r, i)),
        slot_state(after_release(r, i), i) == VD_SLOT_EMPTY,
        ring_read_seq(after_release(r, i)) == (ring_read_seq(r) + 1) % 4294967296,
        ring_write_seq(after_release(r, i)) == ring_write_seq(r),
        forall|j: int|
            0 <= j < 8 && j != i ==> #[trigger] slot_state(after_release(r, i), j) == slot_state(
                r,
                j,
            ),
        forall|k: int|
            0 <= k < r.len() && !(slot_offset(i) <= k < slot_offset(i) + 4) && !(24 <= k < 28)
                ==> #[trigger] after_release(r, i)[k] == r[k],
{
    let o = slot_offset(i);
    let w1 = with_slot_state(r, i, VD_SLOT_EMPTY);
    let v = ((ring_read_seq(w1) + 1) % 4294967296) as u32;
    lemma_with_u32(r, o, VD_SLOT_EMPTY);
    lemma_with_u32_other(r, o, VD_SLOT_EMPTY, 24);
    lemma_with_u32_other(r, o, VD_SLOT_EMPTY, 20);
    lemma_with_u32(w1, 24, v);
    lemma_with_u32_other(w1, 24, v, o);
    lemma_with_u32_other(w1, 24, v, 20);
    assert forall|j: int| 0 <= j < 8 && j != i implies #[trigger] slot_state(
        after_release(r, i),
        j,
    ) == slot_state(r, j) by {
        lemma_with_u32_other(r, o, VD_SLOT_EMPTY, slot_offset(j));
        lemma_with_u32_other(w1, 24, v, slot_offset(j));
    }
}

/// Handing slot `i` back without delivering its frame (a stale notification,
/// an oversized frame) changes only that slot's state, to EMPTY: `read_seq`,
/// `write_seq` and every other byte stay as they were.
pub proof fn lemma_clear_consumes_nothing(r: Seq<u8>, i: int)
    requires
        region_sized(r),
        0 <= i < 8,
    ensures
        region_sized(after_clear(r, i)),
        slot_state(after_clear(r, i), i) == VD_SLOT_EMPTY,
        ring_read_seq(after_clear(r, i)) == ring_read_seq(r),
        ring_write_seq(after_clear(r, i)) == ring_write_seq(r),
        forall|k: int|
            0 <= k < r.len() && !(slot_offset(i) <= k < slot_offset(i) + 4) ==> #[trigger] after_clear(
                r,
                i,
            )[k] == r[k],
{
    let o = slot_offset(i);
    lemma_with_u32(r, o, VD_SLOT_EMPTY);
    lemma_with_u32_other(r, o, VD_SLOT_EMPTY, 24);
    lemma_with_u32_other(r, o, VD_SLOT_EMPTY, 20);
}

/// A notification that no longer describes what slot `i` holds consumes
/// nothing: the read fails, `read_seq` and `write_seq` are unchanged, and the
/// slot, if it was leased, is handed back EMPTY.
pub proof fn lemma_stale_notification_consumes_nothing(
    r: Seq<u8>,
    i: int,
    n: FrameNotification,
    res: PlatformResult<(FrameMetadata, BytesMut)>,
    r2: Seq<u8>,
)
    requires
        region_sized(r),
        0 <= i < 8,
        !notification_current(r, i, Some(n)),
        copy_out_outcome(r, i, Some(n), res, r2),
    ensures
        res is Err,
        ring_read_seq(r2) == ring_read_seq(r),
        ring_write_seq(r2) == ring_write_seq(r),
        slot_state(r, i) == VD_SLOT_READY ==> slot_state(r2, i) == VD_SLOT_EMPTY,
        slot_state(r, i) != VD_SLOT_READY ==> r2 == r,
{
    lemma_clear_consumes_nothing(r, i);
}

/// The region after the daemon publishes `payload` in slot `i`: the payload
/// bytes, then the header's `frame_len`, `timestamp_ms`, `seq_no`,
/// `frame_type` and `stream_id`, and last the state READY.
pub open spec fn with_published_frame(
    r: Seq<u8>,
    i: int,
    payload: Seq<u8>,
    timestamp_ms: u32,
    seq_no: u32,
    frame_type: u32,
    stream_id: u32,
) -> Seq<u8> {
    let o = slot_offset(i);
    let w0 = with_bytes(r, o + 64, payload);
    let w1 = with_u32(w0, o + 4, payload.len() as u32);
    let w2 = with_u32(w1, o + 8, timestamp_ms);
    let w3 = with_u32(w2, o + 16, seq_no);
    let w4 = with_u32(w3, o + 20, frame_type);
    let w5 = with_u32(w4, o + 24, stream_id);
    with_u32(w5, o, VD_SLOT_READY)
}

/// A frame the daemon published in slot `i` is leasable, its header reads back
/// the published values and its payload reads back byte for byte; publishing
/// does not touch `read_seq`.
pub proof fn lemma_published_frame_reads_back(
    r: Seq<u8>,
    i: int,
    payload: Seq<u8>,
    timestamp_ms: u32,
    seq_no: u32,
    frame_type: u32,
    stream_id: u32,
)
    requires
        region_sized(r),
        0 <= i < 8,
        payload.len() <= VD_SHM_SLOT_DATA_SIZE,
    ensures
        ({
            let w = with_published_frame(
                r,
                i,
                payload,
                timestamp_ms,
                seq_no,
                frame_type,
                stream_id,
            );
            &&& region_sized(w)
            &&& slot_leasable(w, i)
            &&& slot_frame_len(w, i) == payload.len()
            &&& slot_seq_no(w, i) == seq_no
            &&& slot_stream_id(w, i) == stream_id
            &&& slot_payload(w, i, payload.len() as int) == payload
            &&& slot_metadata(w, i) == FrameMetadata {
                timestamp_ms,
                seq_no,
                frame_type: spec_frame_type_to_onvif(frame_type as int),
                remote_token: 0,
                stream_id: spec_stream_id_to_onvif(stream_id as int),
            }
            &&& ring_read_seq(w) == ring_read_seq(r)
        }),
{
    let o = slot_offset(i);
    let len = payload.len() as u32;
    let w0 = with_bytes(r, o + 64, payload);
    let w1 = with_u32(w0, o + 4, len);
    let w2 = with_u32(w1, o + 8, timestamp_ms);
    let w3 = with_u32(w2, o + 16, seq_no);
    let w4 = with_u32(w3, o + 20, frame_type);
    let w5 = with_u32(w4, o + 24, stream_id);
    let w6 = with_u32(w5, o, VD_SLOT_READY);
    lemma_with_bytes(r, o + 64, payload);
    assert(w0[24] == r[24] && w0[25] == r[25] && w0[26] == r[26] && w0[27] == r[27]);
    assert(le_u32_at(w0, 24) == le_u32_at(r, 24));
    lemma_with_u32(w0, o + 4, len);
    lemma_with_u32(w1, o + 8, timestamp_ms);
    lemma_with_u32(w2, o + 16, seq_no);
    lemma_with_u32(w3, o + 20, frame_type);
    lemma_with_u32(w4, o + 24, stream_id);
    lemma_with_u32(w5, o, VD_SLOT_READY);
    // frame_len survives the later header writes
    lemma_with_u32_other(w1, o + 8, timestamp_ms, o + 4);
    lemma_with_u32_other(w2, o + 16, seq_no, o + 4);
    lemma_with_u32_other(w3, o + 20, frame_type, o + 4);
    lemma_with_u32_other(w4, o + 24, stream_id, o + 4);
    lemma_with_u32_other(w5, o, VD_SLOT_READY, o + 4);
    // timestamp_ms
    lemma_with_u32_other(w2, o + 16, seq_no, o + 8);
    lemma_with_u32_other(w3, o + 20, frame_type, o + 8);
    lemma_with_u32_other(w4, o + 24, stream_id, o + 8);
    lemma_with_u32_other(w5, o, VD_SLOT_READY, o + 8);
    // seq_no
    lemma_with_u32_other(w3, o + 20, frame_type, o + 16);
    lemma_with_u32_other(w4, o + 24, stream_id, o + 16);
    lemma_with_u32_other(w5, o, VD_SLOT_READY, o + 16);
    // frame_type
    lemma_with_u32_other(w4, o + 24, stream_id, o + 20);
    lemma_with_u32_other(w5, o, VD_SLOT_READY, o + 20);
    // stream_id
    lemma_with_u32_other(w5, o, VD_SLOT_READY, o + 24);
    // read_seq
    lemma_with_u32_other(w0, o + 4, len, 24);
    lemma_with_u32_other(w1, o + 8, timestamp_ms, 24);
    lemma_with_u32_other(w2, o + 16, seq_no, 24);
    lemma_with_u32_other(w3, o + 20, frame_type, 24);
    lemma_with_u32_other(w4, o + 24, stream_id, 24);
    lemma_with_u32_other(w5, o, VD_SLOT_READY, 24);
    // payload
    let a = o + 64;
    let b = o + 64 + payload.len();
    lemma_with_u32_range(w0, o + 4, len, a, b);
    lemma_with_u32_range(w1, o + 8, timestamp_ms, a, b);
    lemma_with_u32_range(w2, o + 16, seq_no, a, b);
    lemma_with_u32_range(w3, o + 20, frame_type, a, b);
    lemma_with_u32_range(w4, o + 24, stream_id, a, b);
    lemma_with_u32_range(w5, o, VD_SLOT_READY, a, b);
    assert(w6 == with_published_frame(
        r,
        i,
        payload,
        timestamp_ms,
        seq_no,
        frame_type,
        stream_id,
    ));
}

/// Reading a published frame through the daemon's notification for it delivers
/// exactly the published payload and metadata, empties the slot, and advances
/// `read_seq` by one from where it stood before the frame was published.
pub proof fn lemma_notified_read_returns_published_frame(
    r: Seq<u8>,
    i: int,
    payload: Seq<u8>,
    timestamp_ms: u32,
    seq_no: u32,
    frame_type: u32,
    stream_id: u32,
    n: FrameNotification,
    res: PlatformResult<(FrameMetadata, BytesMut)>,
    r2: Seq<u8>,
)
    requires
        region_sized(r),
        0 <= i < 8,
        payload.len() <= VD_SHM_SLOT_DATA_SIZE,
        n.frame_len == payload.len(),
        n.seq_no == seq_no,
        n.stream_id == stream_id,
        copy_out_outcome(
            with_published_frame(r, i, payload, timestamp_ms, seq_no, frame_type, stream_id),
            i,
            Some(n),
            res,
            r2,
        ),
    ensures
        res matches Ok((meta, buf)) && meta == (FrameMetadata {
            timestamp_ms,
            seq_no,
            frame_type: spec_frame_type_to_onvif(frame_type as int),
            remote_token: 0,
            stream_id: spec_stream_id_to_onvif(stream_id as int),
        }) && bytes_mut_contents(buf) == payload,
        slot_state(r2, i) == VD_SLOT_EMPTY,
        ring_read_seq(r2) == (ring_read_seq(r) + 1) % 4294967296,
{
    let w = with_published_frame(r, i, payload, timestamp_ms, seq_no, frame_type, stream_id);
    lemma_published_frame_reads_back(r, i, payload, timestamp_ms, seq_no, frame_type, stream_id);
    lemma_release_consumes_exactly_one_frame(w, i);
}

} // verus!
