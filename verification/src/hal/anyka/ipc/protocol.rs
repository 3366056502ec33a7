//! The vendor-daemon control protocol, as decisions on plain values.
//!
//! Request: `cmd_id (i32 LE) + req_len (u32 LE) + req_data`.
//! Response: `status (i32 LE) + resp_len (u32 LE) + resp_data`.
//!
//! The socket I/O, threads and channels live with the caller; this module
//! frames and checks the bytes, holds the attachment's epoch state and its
//! gate, and decides what a poll of the frame sockets leads to.

use vstd::prelude::*;

use bytes::BytesMut;

use crate::hal::anyka::ipc::shm_ring::{copy_out_outcome, has_flag, FrameNotification, ShmRingReader};
use crate::hal::common::{
    VideoChannelAttr, VideoDevType, VideoFrameType, VideoResolution, EncodeParam, PcmParam,
    AudioParam, AencAttr, BitrateCtrlMode, EncodeGroupType, EncodeOutputType, EncodeUseChn, ProfileMode,
};
use crate::hal::wire::{
    le_bytes_i32, le_bytes_u32, le_bytes_u64, le_i32_at, le_i64_at, le_u32_at, push_i32_le,
    push_u32_le, push_u64_le, read_i32_le, read_i64_le, read_u32_le, fill_from_vec,
    lemma_le_i32_roundtrip, lemma_le_u32_roundtrip,
};
use crate::platform::common::{FrameMetadata, OwnedFrame, StreamId};
use crate::platform::{
    is_hardware_failure, is_hardware_unavailable, is_resource_busy, PlatformError, PlatformResult,
};
use crate::text::{bool_text, dec_int, dec_nat, fmt_bool, fmt_i64, fmt_u64, seq_contains, str_contains};

verus! {

/// Maximum accepted response body (2 MB, room for a raw I-frame).
pub const MAX_RESPONSE_SIZE: usize = 2 * 1024 * 1024;

pub const CMD_VI_MATCH_SENSOR: i32 = 1;
pub const CMD_VI_OPEN: i32 = 2;
pub const CMD_VI_CLOSE: i32 = 3;
pub const CMD_VI_GET_SENSOR_RESOLUTION: i32 = 4;
pub const CMD_VI_SET_CHANNEL_ATTR: i32 = 5;
pub const CMD_VI_CAPTURE_ON: i32 = 6;
pub const CMD_VI_CAPTURE_OFF: i32 = 7;
pub const CMD_VPSS_INIT: i32 = 8;
pub const CMD_VPSS_DESTROY: i32 = 9;
pub const CMD_VENC_SET_CFG_PATH: i32 = 10;
pub const CMD_VENC_OPEN: i32 = 11;
pub const CMD_VENC_CLOSE: i32 = 12;
pub const CMD_VENC_SET_RC: i32 = 13;
pub const CMD_VENC_SET_IFRAME: i32 = 14;
pub const CMD_VENC_REQUEST_STREAM: i32 = 15;
pub const CMD_VENC_CANCEL_STREAM: i32 = 18;
pub const CMD_VENC_START_PUSH: i32 = 19;
pub const CMD_VENC_STOP_PUSH: i32 = 20;
pub const CMD_AI_OPEN: i32 = 50;
pub const CMD_AI_CLOSE: i32 = 51;
pub const CMD_AI_SET_ADC_VOLUME: i32 = 52;
pub const CMD_AI_SET_ASLC_VOLUME: i32 = 53;
pub const CMD_AENC_OPEN: i32 = 54;
pub const CMD_AENC_CLOSE: i32 = 55;
pub const CMD_AENC_SET_ATTR: i32 = 56;
pub const CMD_ISP_SET_BRIGHTNESS: i32 = 100;
pub const CMD_ISP_SET_CONTRAST: i32 = 101;
pub const CMD_ISP_SET_SATURATION: i32 = 102;
pub const CMD_ISP_SET_SHARPNESS: i32 = 103;
pub const CMD_ISP_SET_IR_FILTER: i32 = 104;
pub const CMD_ISP_SET_WDR: i32 = 105;
pub const CMD_GET_ERROR_NO: i32 = 200;
pub const CMD_GET_ERROR_STR: i32 = 201;
/// Attach handshake, answered with `[u32 epoch][u32 shm_version]`; the only
/// command exempt from the epoch gate.
pub const CMD_HELLO: i32 = 300;

/// Status the daemon answers when a handle token names a dead generation.
pub const VD_STATUS_STALE_EPOCH: i32 = -2;
/// Epoch meaning "not attached to any daemon generation" (the daemon never uses 0).
pub const EPOCH_DETACHED: u32 = 0;

/// The name a command is logged and reported under.
pub open spec fn spec_cmd_name(cmd_id: i32) -> Seq<char> {
    if cmd_id == 1 { "VI_MATCH_SENSOR"@ }
    else if cmd_id == 2 { "VI_OPEN"@ }
    else if cmd_id == 3 { "VI_CLOSE"@ }
    else if cmd_id == 4 { "VI_GET_SENSOR_RESOLUTION"@ }
    else if cmd_id == 5 { "VI_SET_CHANNEL_ATTR"@ }
    else if cmd_id == 6 { "VI_CAPTURE_ON"@ }
    else if cmd_id == 7 { "VI_CAPTURE_OFF"@ }
    else if cmd_id == 8 { "VPSS_INIT"@ }
    else if cmd_id == 9 { "VPSS_DESTROY"@ }
    else if cmd_id == 10 { "VENC_SET_CFG_PATH"@ }
    else if cmd_id == 11 { "VENC_OPEN"@ }
    else if cmd_id == 12 { "VENC_CLOSE"@ }
    else if cmd_id == 13 { "VENC_SET_RC"@ }
    else if cmd_id == 14 { "VENC_SET_IFRAME"@ }
    else if cmd_id == 15 { "VENC_REQUEST_STREAM"@ }
    else if cmd_id == 18 { "VENC_CANCEL_STREAM"@ }
    else if cmd_id == 19 { "VENC_START_PUSH"@ }
    else if cmd_id == 20 { "VENC_STOP_PUSH"@ }
    else if cmd_id == 50 { "AI_OPEN"@ }
    else if cmd_id == 51 { "AI_CLOSE"@ }
    else if cmd_id == 52 { "AI_SET_ADC_VOLUME"@ }
    else if cmd_id == 53 { "AI_SET_ASLC_VOLUME"@ }
    else if cmd_id == 54 { "AENC_OPEN"@ }
    else if cmd_id == 55 { "AENC_CLOSE"@ }
    else if cmd_id == 56 { "AENC_SET_ATTR"@ }
    else if cmd_id == 100 { "ISP_SET_BRIGHTNESS"@ }
    else if cmd_id == 101 { "ISP_SET_CONTRAST"@ }
    else if cmd_id == 102 { "ISP_SET_SATURATION"@ }
    else if cmd_id == 103 { "ISP_SET_SHARPNESS"@ }
    else if cmd_id == 104 { "ISP_SET_IR_FILTER"@ }
    else if cmd_id == 105 { "ISP_SET_WDR"@ }
    else if cmd_id == 200 { "GET_ERROR_NO"@ }
    else if cmd_id == 201 { "GET_ERROR_STR"@ }
    else if cmd_id == 300 { "HELLO"@ }
    else { "UNKNOWN"@ }
}

/// The name a command is logged and reported under ("UNKNOWN" for others).
pub fn cmd_name(cmd_id: i32) -> (name: &'static str)
    ensures
        name@ == spec_cmd_name(cmd_id),
{
    match cmd_id {
        1 => "VI_MATCH_SENSOR",
        2 => "VI_OPEN",
        3 => "VI_CLOSE",
        4 => "VI_GET_SENSOR_RESOLUTION",
        5 => "VI_SET_CHANNEL_ATTR",
        6 => "VI_CAPTURE_ON",
        7 => "VI_CAPTURE_OFF",
        8 => "VPSS_INIT",
        9 => "VPSS_DESTROY",
        10 => "VENC_SET_CFG_PATH",
        11 => "VENC_OPEN",
        12 => "VENC_CLOSE",
        13 => "VENC_SET_RC",
        14 => "VENC_SET_IFRAME",
        15 => "VENC_REQUEST_STREAM",
        18 => "VENC_CANCEL_STREAM",
        19 => "VENC_START_PUSH",
        20 => "VENC_STOP_PUSH",
        50 => "AI_OPEN",
        51 => "AI_CLOSE",
        52 => "AI_SET_ADC_VOLUME",
        53 => "AI_SET_ASLC_VOLUME",
        54 => "AENC_OPEN",
        55 => "AENC_CLOSE",
        56 => "AENC_SET_ATTR",
        100 => "ISP_SET_BRIGHTNESS",
        101 => "ISP_SET_CONTRAST",
        102 => "ISP_SET_SATURATION",
        103 => "ISP_SET_SHARPNESS",
        104 => "ISP_SET_IR_FILTER",
        105 => "ISP_SET_WDR",
        200 => "GET_ERROR_NO",
        201 => "GET_ERROR_STR",
        300 => "HELLO",
        _ => "UNKNOWN",
    }
}

// ----------------------------------------------------------------------------
// Framing
// ----------------------------------------------------------------------------

/// The bytes of one request on the control socket.
pub open spec fn request_frame(cmd_id: i32, req: Seq<u8>) -> Seq<u8> {
    le_bytes_i32(cmd_id) + le_bytes_u32(req.len() as u32) + req
}

/// Frame a request: `cmd_id`, the body length, then the body.
pub fn encode_request(cmd_id: i32, req_data: &[u8]) -> (frame: Vec<u8>)
    requires
        req_data@.len() <= u32::MAX,
    ensures
        frame@ == request_frame(cmd_id, req_data@),
{
    let mut frame: Vec<u8> = Vec::new();
    push_i32_le(&mut frame, cmd_id);
    push_u32_le(&mut frame, req_data.len() as u32);
    let mut i: usize = 0;
    while i < req_data.len()
        invariant
            i <= req_data@.len(),
            frame@ == le_bytes_i32(cmd_id) + le_bytes_u32(req_data@.len() as u32) + req_data@.subrange(0, i as int),
        decreases req_data@.len() - i,
    {
        frame.push(req_data[i]);
        proof {
            assert(req_data@.subrange(0, i + 1) =~= req_data@.subrange(0, i as int).push(req_data@[i as int]));
        }
        i = i + 1;
    }
    proof {
        assert(req_data@.subrange(0, req_data@.len() as int) =~= req_data@);
    }
    frame
}

/// Request and response share one header layout: the 8-byte header of a
/// framed request, read as a response header, gives back the command id and
/// the body length, and the body follows it unchanged.
pub proof fn lemma_request_header_reads_back(cmd_id: i32, req: Seq<u8>)
    requires
        req.len() <= MAX_RESPONSE_SIZE,
    ensures
        le_i32_at(request_frame(cmd_id, req), 0) == cmd_id,
        le_u32_at(request_frame(cmd_id, req), 4) == req.len(),
        request_frame(cmd_id, req).len() == 8 + req.len(),
        request_frame(cmd_id, req).subrange(8, 8 + req.len() as int) == req,
{
    let f = request_frame(cmd_id, req);
    let n = req.len() as u32;
    lemma_le_i32_roundtrip(cmd_id);
    lemma_le_u32_roundtrip(n);
    assert(f.subrange(0, 4) =~= le_bytes_i32(cmd_id));
    assert(f.subrange(4, 8) =~= le_bytes_u32(n));
    assert(f.subrange(8, 8 + req.len() as int) =~= req);
    assert(le_i32_at(f, 0) == le_i32_at(le_bytes_i32(cmd_id), 0));
    assert(le_u32_at(f, 4) == le_u32_at(le_bytes_u32(n), 0));
}

/// Message of an oversized response.
pub open spec fn msg_response_too_large(len: int) -> Seq<char> {
    "IPC response too large: "@ + dec_nat(len as nat) + " bytes (max 2097152)"@
}

/// Decode the 8-byte response header into `(status, body length)`, refusing
/// a body longer than [`MAX_RESPONSE_SIZE`] before anything is allocated.
pub fn decode_response_header(header: &[u8; 8]) -> (res: PlatformResult<(i32, usize)>)
    ensures
        le_u32_at(header@, 4) > MAX_RESPONSE_SIZE ==> is_hardware_failure(
            res,
            msg_response_too_large(le_u32_at(header@, 4)),
        ),
        le_u32_at(header@, 4) <= MAX_RESPONSE_SIZE ==> res == Ok::<(i32, usize), PlatformError>(
            (le_i32_at(header@, 0) as i32, le_u32_at(header@, 4) as usize),
        ),
{
    let s = header.as_slice();
    let status = read_i32_le(s, 0);
    let len = read_u32_le(s, 4) as usize;
    if len > MAX_RESPONSE_SIZE {
        let mut m = String::from_str("IPC response too large: ");
        m.append(fmt_u64(len as u64).as_str());
        m.append(" bytes (max 2097152)");
        return Err(PlatformError::HardwareFailure(m));
    }
    Ok((status, len))
}

// ----------------------------------------------------------------------------
// Responses
// ----------------------------------------------------------------------------

/// Message of a handshake the daemon refused.
pub open spec fn msg_hello_rejected(status: i32) -> Seq<char> {
    "vendor daemon rejected CMD_HELLO with status "@ + dec_int(status as int)
}

/// Message of a short handshake answer.
pub open spec fn msg_hello_short(len: int) -> Seq<char> {
    "CMD_HELLO response too short: "@ + dec_nat(len as nat) + " bytes (want 8)"@
}

/// Message of a handshake that reported epoch 0.
pub open spec fn msg_hello_zero_epoch() -> Seq<char> {
    "vendor daemon reported epoch 0; it is pre-v3 or misbehaving"@
}

/// Read `(epoch, shm_version)` out of the daemon's answer to `CMD_HELLO`.
///
/// Epoch 0 is refused: it is this client's own "detached" sentinel, and a
/// daemon that reports it is pre-v3 or misbehaving.
pub fn parse_hello_response(status: i32, resp: &[u8]) -> (res: PlatformResult<(u32, u32)>)
    ensures
        status != 0 ==> is_hardware_unavailable(res, msg_hello_rejected(status)),
        status == 0 && resp@.len() < 8 ==> is_hardware_failure(
            res,
            msg_hello_short(resp@.len() as int),
        ),
        status == 0 && resp@.len() >= 8 && le_u32_at(resp@, 0) == 0 ==> is_hardware_unavailable(
            res,
            msg_hello_zero_epoch(),
        ),
        status == 0 && resp@.len() >= 8 && le_u32_at(resp@, 0) != 0 ==> res == Ok::<
            (u32, u32),
            PlatformError,
        >((le_u32_at(resp@, 0) as u32, le_u32_at(resp@, 4) as u32)),
{
    if status != 0 {
        let mut m = String::from_str("vendor daemon rejected CMD_HELLO with status ");
        m.append(fmt_i64(status as i64).as_str());
        return Err(PlatformError::HardwareUnavailable(m));
    }
    if resp.len() < 8 {
        let mut m = String::from_str("CMD_HELLO response too short: ");
        m.append(fmt_u64(resp.len() as u64).as_str());
        m.append(" bytes (want 8)");
        return Err(PlatformError::HardwareFailure(m));
    }
    let epoch = read_u32_le(resp, 0);
    let version = read_u32_le(resp, 4);
    if epoch == EPOCH_DETACHED {
        return Err(
            PlatformError::HardwareUnavailable(
                String::from_str("vendor daemon reported epoch 0; it is pre-v3 or misbehaving"),
            ),
        );
    }
    Ok((epoch, version))
}

/// Message of a handle request the daemon refused as stale.
pub open spec fn msg_stale_handle(cmd_id: i32) -> Seq<char> {
    "vendor daemon rejected "@ + spec_cmd_name(cmd_id)
        + " as a stale handle; the attachment is from a dead generation"@
}

/// Message of a failed request.
pub open spec fn msg_request_failed(status: i32) -> Seq<char> {
    "IPC request failed with status: "@ + dec_int(status as int)
}

/// Read the handle token (an 8-byte LE value) out of a handle request's answer.
///
/// A stale-epoch status is an attachment problem (`HardwareUnavailable`);
/// any other failure, or a body shorter than 8 bytes, is `HardwareFailure`.
pub fn handle_from_response(cmd_id: i32, status: i32, resp: &[u8]) -> (res: PlatformResult<i64>)
    ensures
        status == VD_STATUS_STALE_EPOCH ==> is_hardware_unavailable(res, msg_stale_handle(cmd_id)),
        status != VD_STATUS_STALE_EPOCH && (status != 0 || resp@.len() < 8) ==> is_hardware_failure(
            res,
            msg_request_failed(status),
        ),
        status == 0 && resp@.len() >= 8 ==> res == Ok::<i64, PlatformError>(
            le_i64_at(resp@, 0) as i64,
        ),
{
    if status == VD_STATUS_STALE_EPOCH {
        let mut m = String::from_str("vendor daemon rejected ");
        m.append(cmd_name(cmd_id));
        m.append(" as a stale handle; the attachment is from a dead generation");
        return Err(PlatformError::HardwareUnavailable(m));
    }
    if status != 0 || resp.len() < 8 {
        let mut m = String::from_str("IPC request failed with status: ");
        m.append(fmt_i64(status as i64).as_str());
        return Err(PlatformError::HardwareFailure(m));
    }
    Ok(read_i64_le(resp, 0))
}

/// The value of an i32 request: the first four body bytes when there are
/// that many, the status otherwise.
pub fn i32_from_response(status: i32, resp: &[u8]) -> (v: i32)
    ensures
        resp@.len() >= 4 ==> v == le_i32_at(resp@, 0),
        resp@.len() < 4 ==> v == status,
{
    if resp.len() >= 4 {
        read_i32_le(resp, 0)
    } else {
        status
    }
}

// ----------------------------------------------------------------------------
// Attachment
// ----------------------------------------------------------------------------

/// Whether a request for `cmd_id` may reach the daemon.
pub open spec fn gate_passes(attached: u32, observed: u32, cmd_id: i32) -> bool {
    cmd_id == CMD_HELLO || (attached != EPOCH_DETACHED && observed == attached)
}

/// Message of a request refused while detached.
pub open spec fn msg_not_attached() -> Seq<char> {
    "not attached to a vendor daemon"@
}

/// Message of a request refused because the daemon restarted.
pub open spec fn msg_daemon_restarted(attached: u32, observed: u32) -> Seq<char> {
    "vendor daemon restarted (attached epoch "@ + dec_nat(attached as nat) + ", observed "@
        + dec_nat(observed as nat) + "); handles from the previous generation are stale"@
}

/// Message of an attach whose HELLO and ring disagree on the generation.
pub open spec fn msg_generation_changed(hello: u32, ring: u32) -> Seq<char> {
    "daemon generation changed mid-attach (HELLO "@ + dec_nat(hello as nat) + ", ring "@ + dec_nat(
        ring as nat,
    ) + "); retrying"@
}

/// The daemon generation this client is attached to, and the one the ring
/// header last showed.
///
/// Every SDK handle the client holds was minted by the attached generation,
/// so a request may reach the daemon only while the two agree.
pub struct AttachState {
    attached_epoch: u32,
    observed_epoch: u32,
}

impl AttachState {
    /// The attached generation ([`EPOCH_DETACHED`] when detached).
    pub closed spec fn attached(&self) -> u32 {
        self.attached_epoch
    }

    /// The generation last observed in the ring header.
    pub closed spec fn observed(&self) -> u32 {
        self.observed_epoch
    }

    /// A client attached to nothing: every request but `CMD_HELLO` is refused.
    pub fn new_detached() -> (s: Self)
        ensures
            s.attached() == EPOCH_DETACHED,
            s.observed() == EPOCH_DETACHED,
    {
        AttachState { attached_epoch: EPOCH_DETACHED, observed_epoch: EPOCH_DETACHED }
    }

    /// A state with both epochs given, standing in for an attach and a poll.
    pub fn with_epochs(attached: u32, observed: u32) -> (s: Self)
        ensures
            s.attached() == attached,
            s.observed() == observed,
    {
        AttachState { attached_epoch: attached, observed_epoch: observed }
    }

    /// The attached generation.
    pub fn attached_epoch(&self) -> (e: u32)
        ensures
            e == self.attached(),
    {
        self.attached_epoch
    }

    /// The generation last observed in the ring.
    pub fn observed_epoch(&self) -> (e: u32)
        ensures
            e == self.observed(),
    {
        self.observed_epoch
    }

    /// Refuse a request whose handles belong to another daemon generation.
    ///
    /// `CMD_HELLO` always passes; otherwise the client must be attached and the
    /// ring must still show the attached generation (an observed 0 is refused
    /// like any other mismatch).
    pub fn epoch_gate(&self, cmd_id: i32) -> (res: PlatformResult<()>)
        ensures
            res is Ok <==> gate_passes(self.attached(), self.observed(), cmd_id),
            cmd_id != CMD_HELLO && self.attached() == EPOCH_DETACHED ==> is_hardware_unavailable(
                res,
                msg_not_attached(),
            ),
            cmd_id != CMD_HELLO && self.attached() != EPOCH_DETACHED && self.observed()
                != self.attached() ==> is_hardware_unavailable(
                res,
                msg_daemon_restarted(self.attached(), self.observed()),
            ),
    {
        if cmd_id == CMD_HELLO {
            return Ok(());
        }
        let attached = self.attached_epoch;
        if attached == EPOCH_DETACHED {
            return Err(
                PlatformError::HardwareUnavailable(
                    String::from_str("not attached to a vendor daemon"),
                ),
            );
        }
        let observed = self.observed_epoch;
        if observed != attached {
            let mut m = String::from_str("vendor daemon restarted (attached epoch ");
            m.append(fmt_u64(attached as u64).as_str());
            m.append(", observed ");
            m.append(fmt_u64(observed as u64).as_str());
            m.append("); handles from the previous generation are stale");
            return Err(PlatformError::HardwareUnavailable(m));
        }
        Ok(())
    }

    /// Finish an attach once HELLO answered with `hello_epoch` and the freshly
    /// mapped ring shows `ring_epoch`.
    ///
    /// When they agree the generation is pinned (observed first, then
    /// attached) and returned. When they differ the daemon restarted mid-way:
    /// the attempt fails and the state is rolled back to detached.
    pub fn complete_attach(&mut self, hello_epoch: u32, ring_epoch: u32) -> (res: PlatformResult<u32>)
        ensures
            ring_epoch == hello_epoch ==> res == Ok::<u32, PlatformError>(hello_epoch)
                && final(self).attached() == hello_epoch && final(self).observed() == hello_epoch,
            ring_epoch != hello_epoch ==> is_hardware_unavailable(
                res,
                msg_generation_changed(hello_epoch, ring_epoch),
            ) && final(self).attached() == EPOCH_DETACHED && final(self).observed()
                == EPOCH_DETACHED,
    {
        if ring_epoch != hello_epoch {
            self.detach();
            let mut m = String::from_str("daemon generation changed mid-attach (HELLO ");
            m.append(fmt_u64(hello_epoch as u64).as_str());
            m.append(", ring ");
            m.append(fmt_u64(ring_epoch as u64).as_str());
            m.append("); retrying");
            return Err(PlatformError::HardwareUnavailable(m));
        }
        self.observed_epoch = hello_epoch;
        self.attached_epoch = hello_epoch;
        Ok(hello_epoch)
    }

    /// Tear the attachment down: both epochs return to [`EPOCH_DETACHED`].
    pub fn detach(&mut self)
        ensures
            final(self).attached() == EPOCH_DETACHED,
            final(self).observed() == EPOCH_DETACHED,
    {
        self.attached_epoch = EPOCH_DETACHED;
        self.observed_epoch = EPOCH_DETACHED;
    }

    /// Record the epoch the ring shows now (`None`: no ring is mapped) and
    /// report whether the attachment is still healthy.
    ///
    /// A live epoch of 0 reads as healthy: it only appears while the daemon is
    /// rebuilding the ring, and the epoch gate refuses requests in that window.
    pub fn refresh_observed_epoch(&mut self, live: Option<u32>) -> (healthy: bool)
        ensures
            final(self).attached() == old(self).attached(),
            live is None ==> !healthy && final(self).observed() == old(self).observed(),
            live matches Some(e) ==> final(self).observed() == e && healthy == (e
                == EPOCH_DETACHED || e == old(self).attached()),
    {
        match live {
            None => false,
            Some(e) => {
                self.observed_epoch = e;
                e == EPOCH_DETACHED || e == self.attached_epoch
            },
        }
    }
}

/// `CMD_HELLO` passes the epoch gate in every state: it is how an attach begins.
pub proof fn lemma_hello_always_passes(attached: u32, observed: u32)
    ensures
        gate_passes(attached, observed, CMD_HELLO),
{
}

/// While detached, every request but `CMD_HELLO` is refused.
pub proof fn lemma_detached_refuses_everything_but_hello(observed: u32, cmd_id: i32)
    requires
        cmd_id != CMD_HELLO,
    ensures
        !gate_passes(EPOCH_DETACHED, observed, cmd_id),
{
}

/// After a successful attach to a non-zero generation, every request passes
/// the epoch gate until the ring shows a different epoch.
pub proof fn lemma_attach_opens_the_gate(epoch: u32, cmd_id: i32)
    requires
        epoch != EPOCH_DETACHED,
    ensures
        gate_passes(epoch, epoch, cmd_id),
{
}

/// Once the ring shows a generation other than the attached one, every
/// request but `CMD_HELLO` is refused and the refresh reports the loss, unless
/// the ring is momentarily unstamped (0), which is reported healthy while the
/// gate still refuses.
pub proof fn lemma_restart_closes_the_gate(attached: u32, live: u32, cmd_id: i32)
    requires
        attached != EPOCH_DETACHED,
        live != attached,
        cmd_id != CMD_HELLO,
    ensures
        !gate_passes(attached, live, cmd_id),
{
}

// ----------------------------------------------------------------------------
// Push-mode frame delivery
// ----------------------------------------------------------------------------

/// The message fragment that marks a slot read as a producer/consumer race.
pub open spec fn not_ready_marker() -> Seq<char> {
    "not ready for reading"@
}

/// The message of `e` when it is a slot read that lost a race with the
/// producer (an invalid parameter saying the slot was "not ready for reading").
pub open spec fn slot_race_message(e: PlatformError) -> Option<Seq<char>> {
    match e {
        PlatformError::InvalidParameter(m) => if seq_contains(m@, not_ready_marker()) {
            Some(m@)
        } else {
            None
        },
        _ => None,
    }
}

/// `mapped` is what a slot-read error `e` on `channel` is reported as.
pub open spec fn mapped_slot_error(e: PlatformError, channel: Seq<char>, mapped: PlatformError) -> bool {
    match slot_race_message(e) {
        Some(m) => mapped is ResourceBusy && mapped.spec_message() == "transient slot race on "@
            + channel + " channel: "@ + m,
        None => mapped == e,
    }
}

/// Classify a failed slot read: a slot that was not ready is a transient race
/// with the producer (`ResourceBusy`, retryable); every other error passes
/// through unchanged.
pub fn map_shm_slot_read_error(error: PlatformError, channel: &str) -> (mapped: PlatformError)
    ensures
        mapped_slot_error(error, channel@, mapped),
{
    match error {
        PlatformError::InvalidParameter(msg) => {
            if str_contains(msg.as_str(), "not ready for reading") {
                let mut m = String::from_str("transient slot race on ");
                m.append(channel);
                m.append(" channel: ");
                m.append(msg.as_str());
                PlatformError::ResourceBusy(m)
            } else {
                PlatformError::InvalidParameter(msg)
            }
        },
        other => other,
    }
}

/// The channel a poll leads to read from, given which sockets are readable;
/// a tie goes to the sub channel exactly when `prefer_sub` is set.
pub open spec fn spec_ready_channel(prefer_sub: bool, main_ready: bool, sub_ready: bool) -> Option<
    Seq<char>,
> {
    if main_ready && !sub_ready {
        Some("main"@)
    } else if !main_ready && sub_ready {
        Some("sub"@)
    } else if main_ready && sub_ready {
        if prefer_sub {
            Some("sub"@)
        } else {
            Some("main"@)
        }
    } else {
        None
    }
}

/// The view of an optional string.
pub open spec fn opt_str_view(c: Option<&str>) -> Option<Seq<char>> {
    match c {
        Some(s) => Some(s@),
        None => None,
    }
}

/// Tie-breaker between the main and sub frame sockets when both are readable;
/// it alternates so that neither stream starves the other.
pub struct TieBreaker {
    prefer_sub_on_tie: bool,
}

impl TieBreaker {
    /// Whether the next tie goes to the sub channel.
    pub closed spec fn prefers_sub(&self) -> bool {
        self.prefer_sub_on_tie
    }

    /// A tie-breaker whose first tie goes to the main channel.
    pub fn new() -> (t: Self)
        ensures
            !t.prefers_sub(),
    {
        TieBreaker { prefer_sub_on_tie: false }
    }

    /// Pick the channel to read from; a tie flips the preference for the next one.
    pub fn choose_ready_channel(&mut self, main_ready: bool, sub_ready: bool) -> (c: Option<
        &'static str,
    >)
        ensures
            opt_str_view(c) == spec_ready_channel(old(self).prefers_sub(), main_ready, sub_ready),
            final(self).prefers_sub() == if main_ready && sub_ready {
                !old(self).prefers_sub()
            } else {
                old(self).prefers_sub()
            },
    {
        if main_ready && !sub_ready {
            Some("main")
        } else if !main_ready && sub_ready {
            Some("sub")
        } else if main_ready && sub_ready {
            let prefer_sub = self.prefer_sub_on_tie;
            self.prefer_sub_on_tie = !prefer_sub;
            if prefer_sub {
                Some("sub")
            } else {
                Some("main")
            }
        } else {
            None
        }
    }
}

/// Two ties in a row go to different channels, so under a steady tie the
/// reader alternates between main and sub.
pub proof fn lemma_ties_alternate(prefer_sub: bool)
    ensures
        spec_ready_channel(prefer_sub, true, true) != spec_ready_channel(!prefer_sub, true, true),
        spec_ready_channel(prefer_sub, true, true) is Some,
{
    reveal_strlit("main");
    reveal_strlit("sub");
    assert("main"@[1] != "sub"@[1]);
}

/// The daemon's wire code of a stream: 0 main, 1 sub, 2 audio.
pub open spec fn spec_stream_id_to_wire(stream_id: StreamId) -> u32 {
    match stream_id {
        StreamId::VideoMain => 0,
        StreamId::VideoSub => 1,
        StreamId::Audio => 2,
    }
}

/// The daemon's wire code of a stream.
pub fn stream_id_to_wire(stream_id: StreamId) -> (w: u32)
    ensures
        w == spec_stream_id_to_wire(stream_id),
{
    match stream_id {
        StreamId::VideoMain => 0,
        StreamId::VideoSub => 1,
        StreamId::Audio => 2,
    }
}

/// Body of `CMD_VENC_START_PUSH`: the stream handle (u64 LE), then the
/// stream's wire code (u32 LE).
pub fn start_push_request(stream_handle: u64, stream_id: StreamId) -> (req: Vec<u8>)
    ensures
        req@ == le_bytes_u64(stream_handle) + le_bytes_u32(spec_stream_id_to_wire(stream_id)),
        req@.len() == 12,
{
    let mut req: Vec<u8> = Vec::new();
    push_u64_le(&mut req, stream_handle);
    push_u32_le(&mut req, stream_id_to_wire(stream_id));
    req
}

/// Body of `CMD_VENC_STOP_PUSH`: the stream's wire code, or nothing to stop
/// every stream.
pub fn stop_push_request(stream_id: Option<StreamId>) -> (req: Vec<u8>)
    ensures
        stream_id matches Some(s) ==> req@ == le_bytes_u32(spec_stream_id_to_wire(s)),
        stream_id is None ==> req@ == Seq::<u8>::empty(),
{
    let mut req: Vec<u8> = Vec::new();
    match stream_id {
        Some(s) => push_u32_le(&mut req, stream_id_to_wire(s)),
        None => {},
    }
    req
}

/// Outcome of a push start/stop command: any status but success fails with
/// "<command> failed".
pub fn check_push_status(status: i32, command: &str) -> (res: PlatformResult<()>)
    ensures
        status == 0 ==> res is Ok,
        status != 0 ==> is_hardware_failure(res, command@ + " failed"@),
{
    if status != 0 {
        let mut m = String::from_str(command);
        m.append(" failed");
        return Err(PlatformError::HardwareFailure(m));
    }
    Ok(())
}

/// `e` is the error announcing that the daemon flagged shutdown.
pub open spec fn is_shutdown_error(e: PlatformError) -> bool {
    e matches PlatformError::Shutdown(m) && m@ == "vendor-daemon set VD_FLAG_SHUTDOWN"@
}

/// Report `fallback`, or the daemon's announced shutdown in its place.
pub fn shutdown_or(shutdown: bool, fallback: PlatformError) -> (e: PlatformError)
    ensures
        shutdown ==> is_shutdown_error(e),
        !shutdown ==> e == fallback,
{
    if shutdown {
        PlatformError::Shutdown(String::from_str("vendor-daemon set VD_FLAG_SHUTDOWN"))
    } else {
        fallback
    }
}

/// Message of a hung-up frame socket.
pub open spec fn msg_socket_hangup(main_hup_err: bool, sub_hup_err: bool) -> Seq<char> {
    "push notification socket disconnected (main_hup_err="@ + bool_text(main_hup_err)
        + ", sub_hup_err="@ + bool_text(sub_hup_err) + ")"@
}

/// What a poll of the frame sockets leads to.
pub enum PollVerdict {
    /// Read the notification waiting on this channel ("main" or "sub").
    Read(&'static str),
    /// Give up on this poll with this error; the flag says whether the
    /// supervisor is to hear of a peer loss.
    Fail(PlatformError, bool),
}

/// `e` is `fallback`, or the shutdown error when the daemon flagged shutdown.
pub open spec fn fails_as(shutdown: bool, fallback_is: spec_fn(PlatformError) -> bool, e: PlatformError) -> bool {
    (shutdown ==> is_shutdown_error(e)) && (!shutdown ==> fallback_is(e))
}

/// Decide what a poll of the frame sockets leads to.
///
/// `poll_ready`: the poll reported readiness (`false`: it timed out).
/// The readiness and hang-up flags are per socket; `shutdown` is the
/// daemon's shutdown flag in the ring header. A timeout, or no readable
/// socket without a hang-up, is retryable (`Timeout`); a hang-up is a failure
/// that is reported as peer loss unless the daemon announced its shutdown.
pub fn classify_poll(
    tie: &mut TieBreaker,
    poll_ready: bool,
    main_ready: bool,
    sub_ready: bool,
    main_hup_err: bool,
    sub_hup_err: bool,
    shutdown: bool,
) -> (v: PollVerdict)
    ensures
        !poll_ready ==> final(tie).prefers_sub() == old(tie).prefers_sub() && (v matches PollVerdict::Fail(e, loss)
            && !loss && fails_as(shutdown, |x: PlatformError| x is Timeout, e)),
        poll_ready ==> final(tie).prefers_sub() == if main_ready && sub_ready {
            !old(tie).prefers_sub()
        } else {
            old(tie).prefers_sub()
        },
        poll_ready && (main_ready || sub_ready) ==> (v matches PollVerdict::Read(ch) && Some(ch@)
            == spec_ready_channel(old(tie).prefers_sub(), main_ready, sub_ready)),
        poll_ready && !main_ready && !sub_ready && (main_hup_err || sub_hup_err) ==> (
        v matches PollVerdict::Fail(e, loss) && loss == !shutdown && fails_as(
            shutdown,
            |x: PlatformError|
                x is HardwareFailure && x.spec_message() == msg_socket_hangup(
                    main_hup_err,
                    sub_hup_err,
                ),
            e,
        )),
        poll_ready && !main_ready && !sub_ready && !main_hup_err && !sub_hup_err ==> (
        v matches PollVerdict::Fail(e, loss) && !loss && fails_as(
            shutdown,
            |x: PlatformError| x is Timeout,
            e,
        )),
{
    if !poll_ready {
        return PollVerdict::Fail(shutdown_or(shutdown, PlatformError::Timeout), false);
    }
    match tie.choose_ready_channel(main_ready, sub_ready) {
        Some(channel) => PollVerdict::Read(channel),
        None => {
            if main_hup_err || sub_hup_err {
                let mut m = String::from_str("push notification socket disconnected (main_hup_err=");
                m.append(fmt_bool(main_hup_err));
                m.append(", sub_hup_err=");
                m.append(fmt_bool(sub_hup_err));
                m.append(")");
                PollVerdict::Fail(shutdown_or(shutdown, PlatformError::HardwareFailure(m)), !shutdown)
            } else {
                PollVerdict::Fail(shutdown_or(shutdown, PlatformError::Timeout), false)
            }
        },
    }
}

/// Message of a notification the daemon sent for a dropped frame.
pub open spec fn msg_frame_dropped() -> Seq<char> {
    "frame dropped by daemon (P-frame during ring overflow)"@
}

/// `res` is what the caller receives for the ring read `inner` on `channel`.
pub open spec fn delivered_as(
    inner: PlatformResult<(FrameMetadata, BytesMut)>,
    channel: Seq<char>,
    res: PlatformResult<OwnedFrame>,
) -> bool {
    match inner {
        Ok((meta, buf)) => res matches Ok(f) && f.data == buf && f.timestamp == meta.timestamp_ms
            && f.frame_type == meta.frame_type && f.stream_id == meta.stream_id,
        Err(e) => res matches Err(e2) && mapped_slot_error(e, channel, e2),
    }
}

/// Turn a notification read from `channel` into a frame.
///
/// A dropped-frame notification is reported as `ResourceBusy` without
/// touching the ring. Otherwise the frame is copied out of the ring (see
/// [`ShmRingReader::read_notified_slot_into_bytesmut`]) and a read error is
/// classified by [`map_shm_slot_read_error`].
pub fn deliver_notified_frame(
    shm: &mut Option<ShmRingReader>,
    notif: &FrameNotification,
    channel: &str,
) -> (res: PlatformResult<OwnedFrame>)
    ensures
        has_flag(notif.flags as int, 4) ==> *final(shm) == *old(shm) && is_resource_busy(
            res,
            msg_frame_dropped(),
        ),
        !has_flag(notif.flags as int, 4) && (*old(shm)) is None ==> (*final(shm)) is None
            && is_hardware_failure(res, "shm reader not available for push mode"@),
        !has_flag(notif.flags as int, 4) && (*old(shm)) is Some ==> (*final(shm)) is Some && exists|
            inner: PlatformResult<(FrameMetadata, BytesMut)>,
        |
            #[trigger] copy_out_outcome(
                (*old(shm)).unwrap()@,
                notif.slot_index as int,
                Some(*notif),
                inner,
                (*final(shm)).unwrap()@,
            ) && delivered_as(inner, channel@, res),
{
    if notif.is_frame_dropped() {
        return Err(
            PlatformError::ResourceBusy(
                String::from_str("frame dropped by daemon (P-frame during ring overflow)"),
            ),
        );
    }
    let taken = shm.take();
    match taken {
        None => Err(
            PlatformError::HardwareFailure(
                String::from_str("shm reader not available for push mode"),
            ),
        ),
        Some(mut reader) => {
            let ghost before = reader@;
            let inner = reader.read_notified_slot_into_bytesmut(notif);
            let ghost after = reader@;
            let ghost inner_g = inner;
            *shm = Some(reader);
            let res = match inner {
                Ok((metadata, frame_data)) => Ok(
                    OwnedFrame {
                        data: frame_data,
                        timestamp: metadata.timestamp_ms,
                        frame_type: metadata.frame_type,
                        stream_id: metadata.stream_id,
                    },
                ),
                Err(e) => Err(map_shm_slot_read_error(e, channel)),
            };
            proof {
                assert(copy_out_outcome(before, notif.slot_index as int, Some(*notif), inner_g, after));
                assert(delivered_as(inner_g, channel@, res));
                assert((*old(shm)).unwrap()@ == before);
                assert((*shm).unwrap()@ == after);
            }
            res
        },
    }
}

/// Turn a notification read from `channel` into a frame, given the outcome
/// of the lease taken on the live ring for the notified slot. A dropped
/// frame is reported as [`deliver_notified_frame`] reports it; a lost lease
/// is the read's error, mapped as every slot-read error is, and the reader
/// is left as it was; a lease taken goes on to [`deliver_notified_frame`].
pub fn deliver_after_live_lease(
    shm: &mut Option<ShmRingReader>,
    notif: &FrameNotification,
    channel: &str,
    lease: PlatformResult<()>,
) -> (res: PlatformResult<OwnedFrame>)
    ensures
        has_flag(notif.flags as int, 4) ==> *final(shm) == *old(shm) && is_resource_busy(
            res,
            msg_frame_dropped(),
        ),
        !has_flag(notif.flags as int, 4) ==> (lease matches Err(e) ==> *final(shm) == *old(shm) && (
        res matches Err(e2) && mapped_slot_error(e, channel@, e2))),
        !has_flag(notif.flags as int, 4) && lease is Ok && (*old(shm)) is None ==> (*final(shm)) is None
            && is_hardware_failure(res, "shm reader not available for push mode"@),
        !has_flag(notif.flags as int, 4) && lease is Ok && (*old(shm)) is Some ==> (*final(shm)) is Some
            && exists|inner: PlatformResult<(FrameMetadata, BytesMut)>|
            #[trigger] copy_out_outcome(
                (*old(shm)).unwrap()@,
                notif.slot_index as int,
                Some(*notif),
                inner,
                (*final(shm)).unwrap()@,
            ) && delivered_as(inner, channel@, res),
{
    if !notif.is_frame_dropped() {
        if let Err(e) = lease {
            return Err(map_shm_slot_read_error(e, channel));
        }
    }
    deliver_notified_frame(shm, notif, channel)
}

// ----------------------------------------------------------------------------
// Struct encodings
// ----------------------------------------------------------------------------

/// Encode a video device type (4 bytes: its code, i32 LE).
pub fn encode_video_dev_type_buf(dev: VideoDevType) -> (r: ([u8; 4], usize))
    ensures
        r.0@ == le_bytes_i32(0),
        r.1 == 4,
{
    let mut v: Vec<u8> = Vec::new();
    push_i32_le(&mut v, dev.code());
    let mut buf = [0u8; 4];
    fill_from_vec(&mut buf, &v);
    (buf, 4)
}

/// The 16 bytes of a resolution: width, height, max width, max height (i32 LE).
pub open spec fn resolution_bytes(r: VideoResolution) -> Seq<u8> {
    le_bytes_i32(r.width) + le_bytes_i32(r.height) + le_bytes_i32(r.max_width) + le_bytes_i32(
        r.max_height,
    )
}

fn push_resolution(v: &mut Vec<u8>, r: &VideoResolution)
    ensures
        final(v)@ == old(v)@ + resolution_bytes(*r),
{
    push_i32_le(v, r.width);
    push_i32_le(v, r.height);
    push_i32_le(v, r.max_width);
    push_i32_le(v, r.max_height);
    assert(final(v)@ =~= old(v)@ + resolution_bytes(*r));
}

/// Encode video channel attributes (48 bytes): the crop's left, top, width
/// and height, then the main and sub resolutions, every field i32 LE.
pub fn encode_video_channel_attr_buf(attr: &VideoChannelAttr) -> (r: ([u8; 48], usize))
    ensures
        r.0@ == le_bytes_i32(attr.crop.left) + le_bytes_i32(attr.crop.top) + le_bytes_i32(
            attr.crop.width,
        ) + le_bytes_i32(attr.crop.height) + resolution_bytes(attr.res[0]) + resolution_bytes(
            attr.res[1],
        ),
        r.1 == 48,
{
    let mut v: Vec<u8> = Vec::new();
    push_i32_le(&mut v, attr.crop.left);
    push_i32_le(&mut v, attr.crop.top);
    push_i32_le(&mut v, attr.crop.width);
    push_i32_le(&mut v, attr.crop.height);
    push_resolution(&mut v, &attr.res[0]);
    push_resolution(&mut v, &attr.res[1]);
    let mut buf = [0u8; 48];
    fill_from_vec(&mut buf, &v);
    (buf, 48)
}

/// The 48 bytes of encoder parameters: twelve 4-byte LE fields in struct
/// order, the enums by their SDK codes.
pub open spec fn encode_param_bytes(p: EncodeParam) -> Seq<u8> {
    le_bytes_u32(p.width) + le_bytes_u32(p.height) + le_bytes_i32(p.minqp) + le_bytes_i32(p.maxqp)
        + le_bytes_i32(p.fps) + le_bytes_i32(p.goplen) + le_bytes_i32(p.bps) + le_bytes_i32(
        p.profile.spec_code() as i32,
    ) + le_bytes_i32(p.use_chn.spec_code() as i32) + le_bytes_i32(p.enc_grp.spec_code() as i32)
        + le_bytes_i32(p.br_mode.spec_code() as i32) + le_bytes_i32(
        p.enc_out_type.spec_code() as i32,
    )
}

/// The 4-byte field at `off` of encoded encoder parameters.
pub open spec fn encode_param_field(p: EncodeParam, off: int) -> Seq<u8> {
    encode_param_bytes(p).subrange(off, off + 4)
}

/// On the wire, each of the encoder parameters' type fields carries the
/// SDK enumerator's own value: the profile at byte 28 (main 0, high 1,
/// base 2, HEVC main 3, HEVC main still 4), the channel at 32 (main 0,
/// sub 1), the group at 36 (record 0, main net 1, sub net 2, picture 3,
/// count 4), the bitrate mode at 40 (CBR 0, VBR 1) and the output type at
/// 44 (H.264 0, MJPEG 1, HEVC 2). The payload is 48 bytes.
pub proof fn lemma_encode_param_codes_on_the_wire(p: EncodeParam)
    ensures
        encode_param_bytes(p).len() == 48,
        p.profile == ProfileMode::PROFILE_MAIN ==> encode_param_field(p, 28) == le_bytes_i32(0),
        p.profile == ProfileMode::PROFILE_HIGH ==> encode_param_field(p, 28) == le_bytes_i32(1),
        p.profile == ProfileMode::PROFILE_BASE ==> encode_param_field(p, 28) == le_bytes_i32(2),
        p.profile == ProfileMode::PROFILE_HEVC_MAIN ==> encode_param_field(p, 28) == le_bytes_i32(3),
        p.profile == ProfileMode::PROFILE_HEVC_MAIN_STILL ==> encode_param_field(p, 28) == le_bytes_i32(4),
        p.use_chn == EncodeUseChn::ENCODE_MAIN_CHN ==> encode_param_field(p, 32) == le_bytes_i32(0),
        p.use_chn == EncodeUseChn::ENCODE_SUB_CHN ==> encode_param_field(p, 32) == le_bytes_i32(1),
        p.enc_grp == EncodeGroupType::ENCODE_RECORD ==> encode_param_field(p, 36) == le_bytes_i32(0),
        p.enc_grp == EncodeGroupType::ENCODE_MAINCHN_NET ==> encode_param_field(p, 36) == le_bytes_i32(1),
        p.enc_grp == EncodeGroupType::ENCODE_SUBCHN_NET ==> encode_param_field(p, 36) == le_bytes_i32(2),
        p.enc_grp == EncodeGroupType::ENCODE_PICTURE ==> encode_param_field(p, 36) == le_bytes_i32(3),
        p.enc_grp == EncodeGroupType::ENCODE_GRP_NUM ==> encode_param_field(p, 36) == le_bytes_i32(4),
        p.br_mode == BitrateCtrlMode::BR_MODE_CBR ==> encode_param_field(p, 40) == le_bytes_i32(0),
        p.br_mode == BitrateCtrlMode::BR_MODE_VBR ==> encode_param_field(p, 40) == le_bytes_i32(1),
        p.enc_out_type == EncodeOutputType::H264_ENC_TYPE ==> encode_param_field(p, 44) == le_bytes_i32(0),
        p.enc_out_type == EncodeOutputType::MJPEG_ENC_TYPE ==> encode_param_field(p, 44) == le_bytes_i32(1),
        p.enc_out_type == EncodeOutputType::HEVC_ENC_TYPE ==> encode_param_field(p, 44) == le_bytes_i32(2),
{
    let b = encode_param_bytes(p);
    assert(encode_param_field(p, 28) =~= le_bytes_i32(p.profile.spec_code() as i32));
    assert(encode_param_field(p, 32) =~= le_bytes_i32(p.use_chn.spec_code() as i32));
    assert(encode_param_field(p, 36) =~= le_bytes_i32(p.enc_grp.spec_code() as i32));
    assert(encode_param_field(p, 40) =~= le_bytes_i32(p.br_mode.spec_code() as i32));
    assert(encode_param_field(p, 44) =~= le_bytes_i32(p.enc_out_type.spec_code() as i32));
}

/// Encode encoder parameters (48 bytes).
pub fn encode_encode_param_buf(param: &EncodeParam) -> (r: ([u8; 48], usize))
    ensures
        r.0@ == encode_param_bytes(*param),
        r.1 == 48,
        param.enc_out_type == EncodeOutputType::H264_ENC_TYPE ==> r.0@.subrange(44, 48) == le_bytes_i32(0),
        param.enc_out_type == EncodeOutputType::MJPEG_ENC_TYPE ==> r.0@.subrange(44, 48) == le_bytes_i32(1),
        param.enc_out_type == EncodeOutputType::HEVC_ENC_TYPE ==> r.0@.subrange(44, 48) == le_bytes_i32(2),
        param.br_mode == BitrateCtrlMode::BR_MODE_CBR ==> r.0@.subrange(40, 44) == le_bytes_i32(0),
        param.br_mode == BitrateCtrlMode::BR_MODE_VBR ==> r.0@.subrange(40, 44) == le_bytes_i32(1),
{
    proof { lemma_encode_param_codes_on_the_wire(*param); }
    let mut v: Vec<u8> = Vec::new();
    push_u32_le(&mut v, param.width);
    push_u32_le(&mut v, param.height);
    push_i32_le(&mut v, param.minqp);
    push_i32_le(&mut v, param.maxqp);
    push_i32_le(&mut v, param.fps);
    push_i32_le(&mut v, param.goplen);
    push_i32_le(&mut v, param.bps);
    push_i32_le(&mut v, param.profile.code());
    push_i32_le(&mut v, param.use_chn.code());
    push_i32_le(&mut v, param.enc_grp.code());
    push_i32_le(&mut v, param.br_mode.code());
    push_i32_le(&mut v, param.enc_out_type.code());
    assert(v@ =~= encode_param_bytes(*param));
    let mut buf = [0u8; 48];
    fill_from_vec(&mut buf, &v);
    (buf, 48)
}

/// Encode PCM parameters (12 bytes): sample rate, sample bits, channel count (u32 LE).
pub fn encode_pcm_param_buf(param: &PcmParam) -> (r: ([u8; 12], usize))
    ensures
        r.0@ == le_bytes_u32(param.sample_rate) + le_bytes_u32(param.sample_bits) + le_bytes_u32(
            param.channel_num,
        ),
        r.1 == 12,
{
    let mut v: Vec<u8> = Vec::new();
    push_u32_le(&mut v, param.sample_rate);
    push_u32_le(&mut v, param.sample_bits);
    push_u32_le(&mut v, param.channel_num);
    let mut buf = [0u8; 12];
    fill_from_vec(&mut buf, &v);
    (buf, 12)
}

/// Encode audio parameters (16 bytes): sample rate, channel count, sample
/// bits (u32 LE), then the type (i32 LE).
pub fn encode_audio_param_buf(param: &AudioParam) -> (r: ([u8; 16], usize))
    ensures
        r.0@ == le_bytes_u32(param.sample_rate) + le_bytes_u32(param.channel_num) + le_bytes_u32(
            param.sample_bits,
        ) + le_bytes_i32(param.type_),
        r.1 == 16,
{
    let mut v: Vec<u8> = Vec::new();
    push_u32_le(&mut v, param.sample_rate);
    push_u32_le(&mut v, param.channel_num);
    push_u32_le(&mut v, param.sample_bits);
    push_i32_le(&mut v, param.type_);
    let mut buf = [0u8; 16];
    fill_from_vec(&mut buf, &v);
    (buf, 16)
}

/// Encode audio encoder attributes (4 bytes: `aac_head`, i32 LE).
pub fn encode_aenc_attr_buf(attr: &AencAttr) -> (r: ([u8; 4], usize))
    ensures
        r.0@ == le_bytes_i32(attr.aac_head),
        r.1 == 4,
{
    let mut v: Vec<u8> = Vec::new();
    push_i32_le(&mut v, attr.aac_head);
    let mut buf = [0u8; 4];
    fill_from_vec(&mut buf, &v);
    (buf, 4)
}

/// Message of a resolution answer shorter than 16 bytes.
pub open spec fn msg_resolution_too_short() -> Seq<char> {
    "Invalid video_resolution response: too short"@
}

/// Decode a resolution answer: width, height, max width, max height (i32 LE);
/// bytes after the first 16 are ignored.
pub fn decode_video_resolution(data: &[u8]) -> (res: PlatformResult<VideoResolution>)
    ensures
        data@.len() < 16 ==> is_hardware_failure(res, msg_resolution_too_short()),
        data@.len() >= 16 ==> (res matches Ok(r) && r.width == le_i32_at(data@, 0) && r.height
            == le_i32_at(data@, 4) && r.max_width == le_i32_at(data@, 8) && r.max_height
            == le_i32_at(data@, 12)),
{
    if data.len() < 16 {
        return Err(
            PlatformError::HardwareFailure(
                String::from_str("Invalid video_resolution response: too short"),
            ),
        );
    }
    Ok(
        VideoResolution {
            width: read_i32_le(data, 0),
            height: read_i32_le(data, 4),
            max_width: read_i32_le(data, 8),
            max_height: read_i32_le(data, 12),
        },
    )
}

/// The SDK frame type of a wire code: 1 I, 2 B, 3 Pi; 0 and anything
/// unknown is P.
pub open spec fn spec_ipc_to_frame_type(val: i32) -> VideoFrameType {
    if val == 1 {
        VideoFrameType::FrameTypeI
    } else if val == 2 {
        VideoFrameType::FrameTypeB
    } else if val == 3 {
        VideoFrameType::FrameTypePi
    } else {
        VideoFrameType::FrameTypeP
    }
}

/// Convert a wire frame type code to the SDK's frame type.
pub fn ipc_to_frame_type(val: i32) -> (t: VideoFrameType)
    ensures
        t == spec_ipc_to_frame_type(val),
{
    match val {
        1 => VideoFrameType::FrameTypeI,
        2 => VideoFrameType::FrameTypeB,
        3 => VideoFrameType::FrameTypePi,
        _ => VideoFrameType::FrameTypeP,
    }
}


/// The daemon's frame type codes are the SDK's `enum video_frame_type`
/// values: 1 is an I frame, 2 a B frame, 3 a Pi frame, and 0 (with every
/// unknown code) a P frame.
pub proof fn lemma_ipc_frame_type_codes(v: i32)
    ensures
        (spec_ipc_to_frame_type(v) == VideoFrameType::FrameTypeI) <==> (v == 1),
        (spec_ipc_to_frame_type(v) == VideoFrameType::FrameTypeB) <==> (v == 2),
        (spec_ipc_to_frame_type(v) == VideoFrameType::FrameTypePi) <==> (v == 3),
        (spec_ipc_to_frame_type(v) == VideoFrameType::FrameTypeP) <==> !(1 <= v <= 3),
{
}

/// Each stream goes to the daemon as its own code (main 0, sub 1, audio 2),
/// and the daemon's stream id of that code reads back as the same stream.
pub proof fn lemma_stream_wire_codes(s: StreamId)
    ensures
        (s == StreamId::VideoMain) <==> (spec_stream_id_to_wire(s) == 0),
        (s == StreamId::VideoSub) <==> (spec_stream_id_to_wire(s) == 1),
        (s == StreamId::Audio) <==> (spec_stream_id_to_wire(s) == 2),
        crate::hal::anyka::ipc::shm_ring::spec_stream_id_to_onvif(spec_stream_id_to_wire(s) as int) == s,
{
}

} // verus!
