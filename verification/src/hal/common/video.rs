//! Video input, encoder and encoded-stream handling above the HAL's video
//! backend (the vendor daemon in production).
//!
//! Handles are addresses, 0 standing for NULL. A stream handle carries the
//! state of its one-shot cancel: only the first cancel reaches the SDK, and a
//! cancel whose call timed out stays indeterminate for good.

use vstd::prelude::*;
use vstd::string::StringSliceAdditionalSpecFns;

use crate::ffi::ipc::has_nul_byte;
use crate::ffi::video::{
    input_handle_from_raw, input_handle_ok, msg_invalid_video_device, sensor_resolution_ok, sensor_resolution_outcome,
};
use crate::hal::anyka::sdk::{Resolution, VideoDevice};
use crate::hal::common::{check_result, encode_param, sdk_result_ok, video_channel_attr, video_dev_type, video_resolution};
use crate::platform::{
    is_hardware_failure, is_hardware_unavailable, is_invalid_parameter, PlatformError, PlatformResult,
};
use crate::text::fmt_u64;

pub use crate::ffi::video::VideoInputHandle;

verus! {

/// The HAL's video backend. Handles are addresses (0 is NULL); the others
/// return an SDK status code. Each `*_answer` relation holds of the
/// arguments and what a call with them may return.
/// A backend that does not define a relation allows every answer.
pub trait VideoHalTrait {
    /// `r` is a status that loading the sensor configuration at `config_file` may return.
    closed spec fn match_sensor_answer(&self, config_file: Seq<char>, r: i32) -> bool {
        true
    }

    /// `h` is an address that opening input device `dev` may return (0 is NULL).
    closed spec fn vi_open_answer(&self, dev: video_dev_type, h: usize) -> bool {
        true
    }

    /// `r` is a status, and `res` the resolution written back, that reading input `handle`'s sensor resolution may give.
    closed spec fn sensor_resolution_answer(&self, handle: usize, res: video_resolution, r: i32) -> bool {
        true
    }

    /// `r` is a status that setting input `handle`'s channel attributes to `attr` may return.
    closed spec fn channel_attr_answer(&self, handle: usize, attr: video_channel_attr, r: i32) -> bool {
        true
    }

    /// `r` is a status that starting capture on input `handle` may return.
    closed spec fn capture_on_answer(&self, handle: usize, r: i32) -> bool {
        true
    }

    /// `r` is a status that stopping capture on input `handle` may return.
    closed spec fn capture_off_answer(&self, handle: usize, r: i32) -> bool {
        true
    }

    /// `r` is a status that setting input `handle`'s flip and mirror may return.
    closed spec fn flip_mirror_answer(&self, handle: usize, flip: bool, mirror: bool, r: i32) -> bool {
        true
    }

    /// `h` is an address that opening an encoder with `param` may return (0 is NULL).
    closed spec fn venc_open_answer(&self, param: encode_param, h: usize) -> bool {
        true
    }

    /// `r` is a status that closing encoder `handle` may return.
    closed spec fn venc_close_answer(&self, handle: usize, r: i32) -> bool {
        true
    }

    /// `r` is a status that setting encoder `enc_handle`'s bitrate to `bps` may return.
    closed spec fn venc_rc_answer(&self, enc_handle: usize, bps: i32, r: i32) -> bool {
        true
    }

    /// `r` is a status that asking encoder `enc_handle` for an IDR frame may return.
    closed spec fn venc_iframe_answer(&self, enc_handle: usize, r: i32) -> bool {
        true
    }

    /// `h` is an address that requesting a stream from input `vi_handle` through encoder `venc_handle` may return (0 is NULL).
    closed spec fn request_stream_answer(&self, vi_handle: usize, venc_handle: usize, h: usize) -> bool {
        true
    }

    /// `r` is a status that cancelling stream `stream_handle` may return.
    closed spec fn cancel_stream_answer(&self, stream_handle: usize, r: i32) -> bool {
        true
    }

    fn vi_match_sensor(&self, config_file: &str) -> (r: i32)
        ensures
            self.match_sensor_answer(config_file@, r),
    ;

    fn vi_open(&self, dev: video_dev_type) -> (h: usize)
        ensures
            self.vi_open_answer(dev, h),
    ;

    fn vi_get_sensor_resolution(&self, handle: usize, res: &mut video_resolution) -> (r: i32)
        ensures
            self.sensor_resolution_answer(handle, *final(res), r),
    ;

    fn vi_set_channel_attr(&self, handle: usize, attr: &video_channel_attr) -> (r: i32)
        ensures
            self.channel_attr_answer(handle, *attr, r),
    ;

    fn vi_capture_on(&self, handle: usize) -> (r: i32)
        ensures
            self.capture_on_answer(handle, r),
    ;

    fn vi_capture_off(&self, handle: usize) -> (r: i32)
        ensures
            self.capture_off_answer(handle, r),
    ;

    fn vi_set_flip_mirror(&self, handle: usize, flip: bool, mirror: bool) -> (r: i32)
        ensures
            self.flip_mirror_answer(handle, flip, mirror, r),
    ;

    fn vpss_init(&self, vi_handle: usize, dev: i32);

    fn vpss_destroy(&self, dev: i32);

    fn venc_open(&self, param: &encode_param) -> (h: usize)
        ensures
            self.venc_open_answer(*param, h),
    ;

    fn venc_close(&self, handle: usize) -> (r: i32)
        ensures
            self.venc_close_answer(handle, r),
    ;

    fn venc_set_rc(&self, enc_handle: usize, bps: i32) -> (r: i32)
        ensures
            self.venc_rc_answer(enc_handle, bps, r),
    ;

    fn venc_set_iframe(&self, enc_handle: usize) -> (r: i32)
        ensures
            self.venc_iframe_answer(enc_handle, r),
    ;

    fn venc_request_stream(&self, vi_handle: usize, venc_handle: usize) -> (h: usize)
        ensures
            self.request_stream_answer(vi_handle, venc_handle, h),
    ;

    fn venc_cancel_stream(&self, stream_handle: usize) -> (r: i32)
        ensures
            self.cancel_stream_answer(stream_handle, r),
    ;
}

/// Open the video input `device`; only `DEV0` exists.
pub fn video_input_open<F: VideoHalTrait>(device: VideoDevice, ffi: &F) -> (res: PlatformResult<
    VideoInputHandle,
>)
    ensures
        device.0 != 0 ==> is_invalid_parameter(res, msg_invalid_video_device(device.0)),
        device.0 == 0 ==> exists|raw: usize|
            #[trigger] ffi.vi_open_answer(video_dev_type::Dev0, raw) && input_handle_ok(raw, res),
{
    if device.0 != 0 {
        let mut m = String::from_str("Invalid video device ID: ");
        m.append(fmt_u64(device.0 as u64).as_str());
        m.append(". Only VideoDevice::DEV0 is supported");
        return Err(PlatformError::InvalidParameter(m));
    }
    let raw = ffi.vi_open(video_dev_type::Dev0);
    let res = input_handle_from_raw(raw);
    assert(ffi.vi_open_answer(video_dev_type::Dev0, raw) && input_handle_ok(raw, res));
    res
}

/// Read the sensor resolution (the answer buffer starts zeroed).
pub fn video_input_get_sensor_resolution<F: VideoHalTrait>(handle: &VideoInputHandle, ffi: &F) -> (res:
    PlatformResult<Resolution>)
    ensures
        exists|ret: i32, raw: video_resolution|
            #[trigger] ffi.sensor_resolution_answer(handle.spec_ptr(), raw, ret) && sensor_resolution_ok(ret, raw, res),
{
    let mut raw = video_resolution { width: 0, height: 0, max_width: 0, max_height: 0 };
    let ret = ffi.vi_get_sensor_resolution(handle.as_ptr(), &mut raw);
    let res = sensor_resolution_outcome(ret, raw);
    assert(ffi.sensor_resolution_answer(handle.spec_ptr(), raw, ret) && sensor_resolution_ok(ret, raw, res));
    res
}

/// Set the channel attributes.
pub fn video_input_set_channel_attr<F: VideoHalTrait>(
    handle: &VideoInputHandle,
    attr: &video_channel_attr,
    ffi: &F,
) -> (res: PlatformResult<()>)
    ensures
        exists|ret: i32|
            #[trigger] ffi.channel_attr_answer(handle.spec_ptr(), *attr, ret) && sdk_result_ok(ret, "ak_vi_set_channel_attr"@, res),
{
    let ret = ffi.vi_set_channel_attr(handle.as_ptr(), attr);
    let res = check_result(ret, "ak_vi_set_channel_attr");
    assert(ffi.channel_attr_answer(handle.spec_ptr(), *attr, ret) && sdk_result_ok(ret, "ak_vi_set_channel_attr"@, res));
    res
}

/// Load the ISP sensor configuration at `config_path`; a path with a NUL
/// byte cannot be handed to the SDK.
pub fn video_input_match_sensor<F: VideoHalTrait>(config_path: &str, ffi: &F) -> (res: PlatformResult<()>)
    ensures
        config_path.spec_bytes().contains(0u8) ==> is_invalid_parameter(
            res,
            "ISP config path contains null byte"@,
        ),
        !config_path.spec_bytes().contains(0u8) ==> exists|ret: i32|
            #[trigger] ffi.match_sensor_answer(config_path@, ret) && sdk_result_ok(ret, "ak_vi_match_sensor"@, res),
{
    if has_nul_byte(config_path) {
        return Err(PlatformError::InvalidParameter(String::from_str("ISP config path contains null byte")));
    }
    let ret = ffi.vi_match_sensor(config_path);
    let res = check_result(ret, "ak_vi_match_sensor");
    assert(ffi.match_sensor_answer(config_path@, ret) && sdk_result_ok(ret, "ak_vi_match_sensor"@, res));
    res
}

/// Start the capture pipeline.
pub fn video_input_capture_on<F: VideoHalTrait>(handle: &VideoInputHandle, ffi: &F) -> (res: PlatformResult<()>)
    ensures
        exists|ret: i32|
            #[trigger] ffi.capture_on_answer(handle.spec_ptr(), ret) && sdk_result_ok(ret, "ak_vi_capture_on"@, res),
{
    let ret = ffi.vi_capture_on(handle.as_ptr());
    let res = check_result(ret, "ak_vi_capture_on");
    assert(ffi.capture_on_answer(handle.spec_ptr(), ret) && sdk_result_ok(ret, "ak_vi_capture_on"@, res));
    res
}

/// Stop the capture pipeline.
pub fn video_input_capture_off<F: VideoHalTrait>(handle: &VideoInputHandle, ffi: &F) -> (res: PlatformResult<()>)
    ensures
        exists|ret: i32|
            #[trigger] ffi.capture_off_answer(handle.spec_ptr(), ret) && sdk_result_ok(ret, "ak_vi_capture_off"@, res),
{
    let ret = ffi.vi_capture_off(handle.as_ptr());
    let res = check_result(ret, "ak_vi_capture_off");
    assert(ffi.capture_off_answer(handle.spec_ptr(), ret) && sdk_result_ok(ret, "ak_vi_capture_off"@, res));
    res
}

/// Set the sensor's flip (vertical) and mirror (horizontal), each as given.
pub fn video_input_set_flip_mirror<F: VideoHalTrait>(
    handle: &VideoInputHandle,
    flip: bool,
    mirror: bool,
    ffi: &F,
) -> (res: PlatformResult<()>)
    ensures
        exists|ret: i32|
            #[trigger] ffi.flip_mirror_answer(handle.spec_ptr(), flip, mirror, ret) && sdk_result_ok(ret, "ak_vi_set_flip_mirror"@, res),
{
    let ret = ffi.vi_set_flip_mirror(handle.as_ptr(), flip, mirror);
    let res = check_result(ret, "ak_vi_set_flip_mirror");
    assert(ffi.flip_mirror_answer(handle.spec_ptr(), flip, mirror, ret) && sdk_result_ok(ret, "ak_vi_set_flip_mirror"@, res));
    res
}

/// The SDK number of a video device: `DEV0` is 0, any other is refused.
fn device_number(device: VideoDevice) -> (res: PlatformResult<i32>)
    ensures
        device.0 == 0 ==> res == Ok::<i32, PlatformError>(0),
        device.0 != 0 ==> is_invalid_parameter(res, msg_invalid_video_device(device.0)),
{
    if device.0 == 0 {
        Ok(0)
    } else {
        let mut m = String::from_str("Invalid video device ID: ");
        m.append(fmt_u64(device.0 as u64).as_str());
        m.append(". Only VideoDevice::DEV0 is supported");
        Err(PlatformError::InvalidParameter(m))
    }
}

/// Initialise video post-processing for `device` on the opened input.
pub fn vpss_init<F: VideoHalTrait>(handle: &VideoInputHandle, device: VideoDevice, ffi: &F) -> (res:
    PlatformResult<()>)
    ensures
        device.0 == 0 ==> res is Ok,
        device.0 != 0 ==> is_invalid_parameter(res, msg_invalid_video_device(device.0)),
{
    match device_number(device) {
        Ok(dev_id) => {
            ffi.vpss_init(handle.as_ptr(), dev_id);
            Ok(())
        },
        Err(e) => Err(e),
    }
}

/// Tear down video post-processing for `device`.
pub fn vpss_destroy<F: VideoHalTrait>(device: VideoDevice, ffi: &F) -> (res: PlatformResult<()>)
    ensures
        device.0 == 0 ==> res is Ok,
        device.0 != 0 ==> is_invalid_parameter(res, msg_invalid_video_device(device.0)),
{
    match device_number(device) {
        Ok(dev_id) => {
            ffi.vpss_destroy(dev_id);
            Ok(())
        },
        Err(e) => Err(e),
    }
}

/// Handle of an opened video encoder, with whether it has been closed.
pub struct VideoEncoderHandle {
    handle: Option<usize>,
    closed: bool,
}

impl VideoEncoderHandle {
    /// The encoder's address, 0 when the handle holds nothing.
    pub closed spec fn spec_ptr(&self) -> usize {
        match self.handle {
            Some(h) => h,
            None => 0,
        }
    }

    /// Whether the encoder has been closed.
    pub closed spec fn spec_closed(&self) -> bool {
        self.closed
    }

    /// A handle that holds nothing and is not closed.
    pub fn test_handle() -> (h: Self)
        ensures
            h.spec_ptr() == 0,
            !h.spec_closed(),
    {
        VideoEncoderHandle { handle: None, closed: false }
    }

    /// The encoder's address, 0 when the handle holds nothing.
    pub fn as_ptr(&self) -> (p: usize)
        ensures
            p == self.spec_ptr(),
    {
        match self.handle {
            Some(h) => h,
            None => 0,
        }
    }

    /// Whether the encoder has been closed.
    pub fn is_closed(&self) -> (b: bool)
        ensures
            b == self.spec_closed(),
    {
        self.closed
    }

    /// Close the encoder in the calling thread. Only the first close of a
    /// non-NULL encoder reaches the SDK; every later one is `Ok`.
    pub fn close_blocking_with_ffi<F: VideoHalTrait>(&mut self, ffi: &F) -> (res: PlatformResult<()>)
        ensures
            final(self).spec_closed(),
            final(self).spec_ptr() == old(self).spec_ptr(),
            old(self).spec_closed() ==> res is Ok,
            !old(self).spec_closed() && old(self).spec_ptr() == 0 ==> res is Ok,
            !old(self).spec_closed() && old(self).spec_ptr() != 0 ==> exists|ret: i32|
                #[trigger] ffi.venc_close_answer(old(self).spec_ptr(), ret) && sdk_result_ok(ret, "ak_venc_close"@, res),
    {
        if self.closed {
            return Ok(());
        }
        self.closed = true;
        let h = self.as_ptr();
        if h == 0 {
            return Ok(());
        }
        let ret = ffi.venc_close(h);
        let res = check_result(ret, "ak_venc_close");
        assert(ffi.venc_close_answer(h, ret) && sdk_result_ok(ret, "ak_venc_close"@, res));
        res
    }
}

/// What the answer `raw` to opening an encoder means for `res`: NULL is an
/// unavailable encoder, anything else the opened one, not yet closed.
pub open spec fn encoder_ok(raw: usize, res: PlatformResult<VideoEncoderHandle>) -> bool {
    &&& raw == 0 ==> is_hardware_unavailable(res, "Video encoder"@)
    &&& raw != 0 ==> (res matches Ok(h) && h.spec_ptr() == raw && !h.spec_closed())
}

/// What the answer to opening an encoder means: NULL is an unavailable
/// encoder, anything else the opened one, not yet closed.
pub fn encoder_from_raw(raw: usize) -> (res: PlatformResult<VideoEncoderHandle>)
    ensures
        encoder_ok(raw, res),
{
    if raw == 0 {
        Err(PlatformError::HardwareUnavailable(String::from_str("Video encoder")))
    } else {
        Ok(VideoEncoderHandle { handle: Some(raw), closed: false })
    }
}

/// Open an encoder with `param`.
pub fn video_encoder_open<F: VideoHalTrait>(param: &encode_param, ffi: &F) -> (res: PlatformResult<
    VideoEncoderHandle,
>)
    ensures
        exists|raw: usize| #[trigger] ffi.venc_open_answer(*param, raw) && encoder_ok(raw, res),
{
    let raw = ffi.venc_open(param);
    let res = encoder_from_raw(raw);
    assert(ffi.venc_open_answer(*param, raw) && encoder_ok(raw, res));
    res
}

/// Set the encoder's bitrate; a bitrate that is not positive is refused
/// before any call.
pub fn video_encoder_set_rc<F: VideoHalTrait>(handle: &VideoEncoderHandle, bps: i32, ffi: &F) -> (res:
    PlatformResult<()>)
    ensures
        bps <= 0 ==> is_invalid_parameter(res, "bitrate must be positive"@),
        bps > 0 ==> exists|ret: i32|
            #[trigger] ffi.venc_rc_answer(handle.spec_ptr(), bps, ret) && sdk_result_ok(ret, "ak_venc_set_rc"@, res),
{
    if bps <= 0 {
        return Err(PlatformError::InvalidParameter(String::from_str("bitrate must be positive")));
    }
    let ret = ffi.venc_set_rc(handle.as_ptr(), bps);
    let res = check_result(ret, "ak_venc_set_rc");
    assert(ffi.venc_rc_answer(handle.spec_ptr(), bps, ret) && sdk_result_ok(ret, "ak_venc_set_rc"@, res));
    res
}

/// Ask for the next frame to be an IDR frame.
pub fn video_encoder_request_idr<F: VideoHalTrait>(handle: &VideoEncoderHandle, ffi: &F) -> (res:
    PlatformResult<()>)
    ensures
        exists|ret: i32|
            #[trigger] ffi.venc_iframe_answer(handle.spec_ptr(), ret) && sdk_result_ok(ret, "ak_venc_set_iframe"@, res),
{
    let ret = ffi.venc_set_iframe(handle.as_ptr());
    let res = check_result(ret, "ak_venc_set_iframe");
    assert(ffi.venc_iframe_answer(handle.spec_ptr(), ret) && sdk_result_ok(ret, "ak_venc_set_iframe"@, res));
    res
}

/// Where a stream's cancel stands.
#[derive(Debug, Clone, Copy, PartialEq, Eq, Structural)]
pub enum CancelState {
    /// Not cancelled yet.
    Active,
    /// The SDK cancel call is under way.
    Pending,
    /// Cancelled (the SDK call returned, or there was no stream).
    Done,
    /// The SDK cancel call timed out: whether it took effect is unknown.
    Unknown,
}

/// What a cancel request has to do next.
#[derive(Debug, Clone, Copy, PartialEq, Eq, Structural)]
pub enum CancelStart {
    /// The stream was cancelled before: nothing to do.
    AlreadyDone,
    /// A cancel is under way or timed out: its outcome is not known.
    Indeterminate,
    /// The stream handle is NULL: cancelled without an SDK call.
    NothingToCancel,
    /// Call `ak_venc_cancel_stream` on this stream handle and report back.
    CallSdk(usize),
}

/// How the SDK cancel call ended.
#[derive(Debug, Clone, Copy, PartialEq, Eq, Structural)]
pub enum CancelOutcome {
    /// It returned this SDK status code.
    Finished(i32),
    /// It did not return in time.
    TimedOut,
}

/// A step of a stream's cancel: a request, or the report of the SDK call.
#[derive(Debug, Clone, Copy, PartialEq, Eq, Structural)]
pub enum CancelOp {
    Begin,
    Finish(CancelOutcome),
}

/// A cancel request from `state` on stream `handle`: the next state and what
/// to do. Only an active stream moves on; a non-NULL one then waits for the
/// SDK call.
pub open spec fn cancel_begin(state: CancelState, handle: usize) -> (CancelState, CancelStart) {
    match state {
        CancelState::Done => (CancelState::Done, CancelStart::AlreadyDone),
        CancelState::Pending => (CancelState::Pending, CancelStart::Indeterminate),
        CancelState::Unknown => (CancelState::Unknown, CancelStart::Indeterminate),
        CancelState::Active => if handle == 0 {
            (CancelState::Done, CancelStart::NothingToCancel)
        } else {
            (CancelState::Pending, CancelStart::CallSdk(handle))
        },
    }
}

/// The state once the SDK cancel call has ended.
pub open spec fn cancel_finish(outcome: CancelOutcome) -> CancelState {
    match outcome {
        CancelOutcome::Finished(_) => CancelState::Done,
        CancelOutcome::TimedOut => CancelState::Unknown,
    }
}

/// The state after `op` from `state` on stream `handle`.
pub open spec fn cancel_after(state: CancelState, handle: usize, op: CancelOp) -> CancelState {
    match op {
        CancelOp::Begin => cancel_begin(state, handle).0,
        CancelOp::Finish(o) => cancel_finish(o),
    }
}

/// How many SDK cancel calls the steps `ops` ask for, from `state` on
/// stream `handle`.
pub open spec fn sdk_cancel_calls(state: CancelState, handle: usize, ops: Seq<CancelOp>) -> nat
    decreases ops.len(),
{
    if ops.len() == 0 {
        0
    } else {
        let here: nat = if ops[0] == CancelOp::Begin && cancel_begin(state, handle).1 is CallSdk {
            1
        } else {
            0
        };
        here + sdk_cancel_calls(cancel_after(state, handle, ops[0]), handle, ops.drop_first())
    }
}

/// A cancel never makes a stream active again.
pub proof fn lemma_cancel_never_reactivates(state: CancelState, handle: usize, op: CancelOp)
    ensures
        cancel_after(state, handle, op) != CancelState::Active,
{
}

/// Only a request on an active, non-NULL stream asks for the SDK call.
pub proof fn lemma_only_an_active_stream_reaches_the_sdk(state: CancelState, handle: usize)
    ensures
        cancel_begin(state, handle).1 is CallSdk <==> (state == CancelState::Active && handle != 0),
{
}

/// Once a stream has left `Active`, no sequence of steps asks for an SDK
/// cancel call.
pub proof fn lemma_no_sdk_call_after_leaving_active(state: CancelState, handle: usize, ops: Seq<CancelOp>)
    requires
        state != CancelState::Active,
    ensures
        sdk_cancel_calls(state, handle, ops) == 0,
    decreases ops.len(),
{
    if ops.len() > 0 {
        lemma_no_sdk_call_after_leaving_active(cancel_after(state, handle, ops[0]), handle, ops.drop_first());
    }
}

/// Cancel is idempotent: whatever the sequence of requests and reports,
/// at most one of them reaches the SDK.
pub proof fn lemma_sdk_cancel_called_at_most_once(state: CancelState, handle: usize, ops: Seq<CancelOp>)
    ensures
        sdk_cancel_calls(state, handle, ops) <= 1,
{
    if ops.len() > 0 {
        let next = cancel_after(state, handle, ops[0]);
        lemma_cancel_never_reactivates(state, handle, ops[0]);
        lemma_no_sdk_call_after_leaving_active(next, handle, ops.drop_first());
    }
}

/// What a cancel request that needs no SDK call reports as a flag: `true`
/// when the stream is cancelled, `false` when that is not known; `None`
/// when the SDK must be called.
pub fn cancel_start_flag(start: CancelStart) -> (r: Option<bool>)
    ensures
        r == (match start {
            CancelStart::AlreadyDone => Some(true),
            CancelStart::NothingToCancel => Some(true),
            CancelStart::Indeterminate => Some(false),
            CancelStart::CallSdk(_) => None::<bool>,
        }),
{
    match start {
        CancelStart::AlreadyDone => Some(true),
        CancelStart::NothingToCancel => Some(true),
        CancelStart::Indeterminate => Some(false),
        CancelStart::CallSdk(_) => None,
    }
}

/// What a cancel request that needs no SDK call reports as a checked
/// result: `Ok` when the stream is cancelled, an error when that is not
/// known; `None` when the SDK must be called.
pub fn cancel_start_checked(start: CancelStart) -> (r: Option<PlatformResult<()>>)
    ensures
        (start is AlreadyDone || start is NothingToCancel) ==> r == Some(Ok::<(), PlatformError>(())),
        start is Indeterminate ==> (r matches Some(res) && is_hardware_failure(
            res,
            "stream cancel state is indeterminate"@,
        )),
        start is CallSdk ==> r is None,
{
    match start {
        CancelStart::AlreadyDone => Some(Ok(())),
        CancelStart::NothingToCancel => Some(Ok(())),
        CancelStart::Indeterminate => Some(
            Err(PlatformError::HardwareFailure(String::from_str("stream cancel state is indeterminate"))),
        ),
        CancelStart::CallSdk(_) => None,
    }
}

/// Handle of an encoded stream (a bound input and encoder pair), with the
/// state of its cancel.
pub struct VideoStreamHandle {
    handle: usize,
    cancel_state: CancelState,
}

impl VideoStreamHandle {
    /// The stream's address.
    pub closed spec fn spec_ptr(&self) -> usize {
        self.handle
    }

    /// Where the stream's cancel stands.
    pub closed spec fn spec_state(&self) -> CancelState {
        self.cancel_state
    }

    /// What the answer `raw` to requesting a stream means for `res`: NULL is
    /// a failure, anything else a fresh, active stream.
    pub open spec fn from_raw_ok(raw: usize, res: PlatformResult<Self>) -> bool {
        &&& raw == 0 ==> is_hardware_failure(res, "ak_venc_request_stream returned null"@)
        &&& raw != 0 ==> (res matches Ok(s) && s.spec_ptr() == raw && s.spec_state() == CancelState::Active)
    }

    /// What the answer to requesting a stream means: NULL is a failure,
    /// anything else a fresh, active stream.
    pub fn from_raw(raw: usize) -> (res: PlatformResult<Self>)
        ensures
            Self::from_raw_ok(raw, res),
    {
        if raw == 0 {
            Err(PlatformError::HardwareFailure(String::from_str("ak_venc_request_stream returned null")))
        } else {
            Ok(VideoStreamHandle { handle: raw, cancel_state: CancelState::Active })
        }
    }

    /// Bind the input `vi_handle` to the encoder `venc_handle` and start
    /// the encode pipeline.
    pub fn new<F: VideoHalTrait>(vi_handle: usize, venc_handle: usize, ffi: &F) -> (res: PlatformResult<Self>)
        ensures
            exists|raw: usize|
                #[trigger] ffi.request_stream_answer(vi_handle, venc_handle, raw) && Self::from_raw_ok(raw, res),
    {
        let raw = ffi.venc_request_stream(vi_handle, venc_handle);
        let res = Self::from_raw(raw);
        assert(ffi.request_stream_answer(vi_handle, venc_handle, raw) && Self::from_raw_ok(raw, res));
        res
    }

    /// The stream's address.
    pub fn as_ptr(&self) -> (p: usize)
        ensures
            p == self.spec_ptr(),
    {
        self.handle
    }

    /// Where the stream's cancel stands.
    pub fn cancel_state(&self) -> (s: CancelState)
        ensures
            s == self.spec_state(),
    {
        self.cancel_state
    }

    /// Take a cancel request: see [`cancel_begin`].
    pub fn begin_cancel(&mut self) -> (start: CancelStart)
        ensures
            (final(self).spec_state(), start) == cancel_begin(old(self).spec_state(), old(self).spec_ptr()),
            final(self).spec_ptr() == old(self).spec_ptr(),
    {
        match self.cancel_state {
            CancelState::Done => CancelStart::AlreadyDone,
            CancelState::Pending => CancelStart::Indeterminate,
            CancelState::Unknown => CancelStart::Indeterminate,
            CancelState::Active => {
                if self.handle == 0 {
                    self.cancel_state = CancelState::Done;
                    CancelStart::NothingToCancel
                } else {
                    self.cancel_state = CancelState::Pending;
                    CancelStart::CallSdk(self.handle)
                }
            },
        }
    }

    /// Take the report of the SDK cancel call; whether it returned.
    pub fn finish_cancel(&mut self, outcome: CancelOutcome) -> (completed: bool)
        ensures
            final(self).spec_state() == cancel_finish(outcome),
            final(self).spec_ptr() == old(self).spec_ptr(),
            completed == (outcome is Finished),
    {
        match outcome {
            CancelOutcome::Finished(_) => {
                self.cancel_state = CancelState::Done;
                true
            },
            CancelOutcome::TimedOut => {
                self.cancel_state = CancelState::Unknown;
                false
            },
        }
    }

    /// Take the report of the SDK cancel call as a checked result: the
    /// call's status, or a failure when it timed out.
    pub fn finish_cancel_checked(&mut self, outcome: CancelOutcome) -> (res: PlatformResult<()>)
        ensures
            final(self).spec_state() == cancel_finish(outcome),
            final(self).spec_ptr() == old(self).spec_ptr(),
            outcome matches CancelOutcome::Finished(ret) ==> sdk_result_ok(ret, "ak_venc_cancel_stream"@, res),
            outcome is TimedOut ==> is_hardware_failure(res, "ak_venc_cancel_stream timed out"@),
    {
        match outcome {
            CancelOutcome::Finished(ret) => {
                self.cancel_state = CancelState::Done;
                check_result(ret, "ak_venc_cancel_stream")
            },
            CancelOutcome::TimedOut => {
                self.cancel_state = CancelState::Unknown;
                Err(PlatformError::HardwareFailure(String::from_str("ak_venc_cancel_stream timed out")))
            },
        }
    }

    /// Cancel the stream in the calling thread, with no time limit.
    pub fn cancel_blocking<F: VideoHalTrait>(&mut self, ffi: &F) -> (res: PlatformResult<()>)
        ensures
            final(self).spec_ptr() == old(self).spec_ptr(),
            old(self).spec_state() == CancelState::Done ==> res is Ok && final(self).spec_state() == CancelState::Done,
            (old(self).spec_state() == CancelState::Pending || old(self).spec_state() == CancelState::Unknown)
                ==> is_hardware_failure(res, "stream cancel state is indeterminate"@)
                && final(self).spec_state() == old(self).spec_state(),
            old(self).spec_state() == CancelState::Active ==> final(self).spec_state() == CancelState::Done,
            old(self).spec_state() == CancelState::Active && old(self).spec_ptr() == 0 ==> res is Ok,
            old(self).spec_state() == CancelState::Active && old(self).spec_ptr() != 0 ==> exists|ret: i32|
                #[trigger] ffi.cancel_stream_answer(old(self).spec_ptr(), ret) && sdk_result_ok(
                    ret,
                    "ak_venc_cancel_stream"@,
                    res,
                ),
    {
        let start = self.begin_cancel();
        match start {
            CancelStart::CallSdk(h) => {
                let ret = ffi.venc_cancel_stream(h);
                let res = self.finish_cancel_checked(CancelOutcome::Finished(ret));
                assert(ffi.cancel_stream_answer(h, ret) && sdk_result_ok(ret, "ak_venc_cancel_stream"@, res));
                res
            },
            _ => match cancel_start_checked(start) {
                Some(r) => r,
                None => Ok(()),
            },
        }
    }
}

} // verus!
