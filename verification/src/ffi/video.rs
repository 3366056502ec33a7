//! The SDK's video input and video encoder calls behind a backend trait, and
//! the handles of an opened input device and encoder.
//!
//! The SDK hands out its handles as C pointers; here a handle is the
//! pointer's address, with 0 standing for NULL.

use vstd::prelude::*;
use vstd::string::StringSliceAdditionalSpecFns;

use crate::hal::anyka::sdk::{Resolution, VideoDevice};
use crate::hal::common::{
    check_result, encode_param, sdk_result_ok, video_channel_attr, video_dev_type, video_resolution,
    AK_SUCCESS_I32,
};
use crate::platform::{is_hardware_unavailable, is_invalid_parameter, PlatformError, PlatformResult};
use crate::text::{dec_nat, fmt_u64};

use super::ipc::has_nul_byte;

verus! {

/// The SDK's video entry points. Handles are addresses (0 is NULL); the
/// others return an SDK status code. Each `*_answer` relation holds of the
/// arguments and what a call with them may return.
/// A backend that does not define a relation allows every answer.
pub trait VideoFfiTrait {
    /// `r` is a status that loading the sensor configuration at `config_file` may return.
    closed spec fn match_sensor_answer(&self, config_file: Seq<char>, r: i32) -> bool {
        true
    }

    /// `h` is an address that opening input device `dev` may return (0 is NULL).
    closed spec fn vi_open_answer(&self, dev: video_dev_type, h: usize) -> bool {
        true
    }

    /// `r` is a status that closing input `handle` may return.
    closed spec fn vi_close_answer(&self, handle: usize, r: i32) -> bool {
        true
    }

    /// `r` is a status, and `res` the resolution written back, that reading input `handle`'s sensor resolution may give.
    closed spec fn sensor_resolution_answer(&self, handle: usize, res: video_resolution, r: i32) -> bool {
        true
    }

    /// `r` is a status that setting input `handle`'s channel attributes to `attr` may return.
    closed spec fn channel_attr_answer(&self, handle: usize, attr: video_channel_attr, r: i32) -> bool {
        true
    }

    /// `r` is a status that starting capture on input `handle` may return.
    closed spec fn capture_on_answer(&self, handle: usize, r: i32) -> bool {
        true
    }

    /// `h` is an address that opening an encoder with `param` may return (0 is NULL).
    closed spec fn venc_open_answer(&self, param: encode_param, h: usize) -> bool {
        true
    }

    /// `r` is a status that closing encoder `handle` may return.
    closed spec fn venc_close_answer(&self, handle: usize, r: i32) -> bool {
        true
    }

    /// `r` is a status that setting encoder `enc_handle`'s bitrate to `bps` may return.
    closed spec fn venc_rc_answer(&self, enc_handle: usize, bps: i32, r: i32) -> bool {
        true
    }

    /// `r` is a status that asking encoder `enc_handle` for an IDR frame may return.
    closed spec fn venc_iframe_answer(&self, enc_handle: usize, r: i32) -> bool {
        true
    }

    fn vi_match_sensor(&self, config_file: &str) -> (r: i32)
        ensures
            self.match_sensor_answer(config_file@, r),
    ;

    fn vi_open(&self, dev: video_dev_type) -> (h: usize)
        ensures
            self.vi_open_answer(dev, h),
    ;

    fn vi_close(&self, handle: usize) -> (r: i32)
        ensures
            self.vi_close_answer(handle, r),
    ;

    fn vi_get_sensor_resolution(&self, handle: usize, res: &mut video_resolution) -> (r: i32)
        ensures
            self.sensor_resolution_answer(handle, *final(res), r),
    ;

    fn vi_set_channel_attr(&self, handle: usize, attr: &video_channel_attr) -> (r: i32)
        ensures
            self.channel_attr_answer(handle, *attr, r),
    ;

    fn vi_capture_on(&self, handle: usize) -> (r: i32)
        ensures
            self.capture_on_answer(handle, r),
    ;

    fn venc_open(&self, param: &encode_param) -> (h: usize)
        ensures
            self.venc_open_answer(*param, h),
    ;

    fn venc_close(&self, handle: usize) -> (r: i32)
        ensures
            self.venc_close_answer(handle, r),
    ;

    fn venc_set_rc(&self, enc_handle: usize, bps: i32) -> (r: i32)
        ensures
            self.venc_rc_answer(enc_handle, bps, r),
    ;

    fn venc_set_iframe(&self, enc_handle: usize) -> (r: i32)
        ensures
            self.venc_iframe_answer(enc_handle, r),
    ;
}

/// The address the host backend hands out for every handle.
pub const STUB_HANDLE: usize = 1;

/// The host build's video backend: every call succeeds, handles are
/// [`STUB_HANDLE`], and the sensor reads 1920x1080.
pub struct StubVideoFfi;

impl VideoFfiTrait for StubVideoFfi {
    open spec fn match_sensor_answer(&self, config_file: Seq<char>, r: i32) -> bool {
        r == AK_SUCCESS_I32
    }

    open spec fn vi_open_answer(&self, dev: video_dev_type, h: usize) -> bool {
        h == STUB_HANDLE
    }

    open spec fn vi_close_answer(&self, handle: usize, r: i32) -> bool {
        r == AK_SUCCESS_I32
    }

    open spec fn sensor_resolution_answer(&self, handle: usize, res: video_resolution, r: i32) -> bool {
        r == AK_SUCCESS_I32 && res.width == 1920 && res.height == 1080 && res.max_width == 1920 && res.max_height == 1080
    }

    open spec fn channel_attr_answer(&self, handle: usize, attr: video_channel_attr, r: i32) -> bool {
        r == AK_SUCCESS_I32
    }

    open spec fn capture_on_answer(&self, handle: usize, r: i32) -> bool {
        r == AK_SUCCESS_I32
    }

    open spec fn venc_open_answer(&self, param: encode_param, h: usize) -> bool {
        h == STUB_HANDLE
    }

    open spec fn venc_close_answer(&self, handle: usize, r: i32) -> bool {
        r == AK_SUCCESS_I32
    }

    open spec fn venc_rc_answer(&self, enc_handle: usize, bps: i32, r: i32) -> bool {
        r == AK_SUCCESS_I32
    }

    open spec fn venc_iframe_answer(&self, enc_handle: usize, r: i32) -> bool {
        r == AK_SUCCESS_I32
    }

    fn vi_match_sensor(&self, _config_file: &str) -> (r: i32)
        ensures
            r == AK_SUCCESS_I32,
    {
        AK_SUCCESS_I32
    }

    fn vi_open(&self, _dev: video_dev_type) -> (h: usize)
        ensures
            h == STUB_HANDLE,
    {
        STUB_HANDLE
    }

    fn vi_close(&self, _handle: usize) -> (r: i32)
        ensures
            r == AK_SUCCESS_I32,
    {
        AK_SUCCESS_I32
    }

    fn vi_get_sensor_resolution(&self, _handle: usize, res: &mut video_resolution) -> (r: i32)
        ensures
            r == AK_SUCCESS_I32,
            final(res).width == 1920,
            final(res).height == 1080,
            final(res).max_width == 1920,
            final(res).max_height == 1080,
    {
        res.width = 1920;
        res.height = 1080;
        res.max_width = 1920;
        res.max_height = 1080;
        AK_SUCCESS_I32
    }

    fn vi_set_channel_attr(&self, _handle: usize, _attr: &video_channel_attr) -> (r: i32)
        ensures
            r == AK_SUCCESS_I32,
    {
        AK_SUCCESS_I32
    }

    fn vi_capture_on(&self, _handle: usize) -> (r: i32)
        ensures
            r == AK_SUCCESS_I32,
    {
        AK_SUCCESS_I32
    }

    fn venc_open(&self, _param: &encode_param) -> (h: usize)
        ensures
            h == STUB_HANDLE,
    {
        STUB_HANDLE
    }

    fn venc_close(&self, _handle: usize) -> (r: i32)
        ensures
            r == AK_SUCCESS_I32,
    {
        AK_SUCCESS_I32
    }

    fn venc_set_rc(&self, _enc_handle: usize, _bps: i32) -> (r: i32)
        ensures
            r == AK_SUCCESS_I32,
    {
        AK_SUCCESS_I32
    }

    fn venc_set_iframe(&self, _enc_handle: usize) -> (r: i32)
        ensures
            r == AK_SUCCESS_I32,
    {
        AK_SUCCESS_I32
    }
}

/// Handle of an opened video input device. A handle made by
/// [`VideoInputHandle::test_handle`] holds nothing and reads as NULL.
pub struct VideoInputHandle {
    handle: Option<usize>,
}

impl VideoInputHandle {
    /// The device's address, 0 when the handle holds nothing.
    pub closed spec fn spec_ptr(&self) -> usize {
        match self.handle {
            Some(h) => h,
            None => 0,
        }
    }

    /// The device's address, 0 when the handle holds nothing.
    pub fn as_ptr(&self) -> (p: usize)
        ensures
            p == self.spec_ptr(),
    {
        match self.handle {
            Some(h) => h,
            None => 0,
        }
    }

    /// A handle that holds nothing and closes nothing.
    pub fn test_handle() -> (h: Self)
        ensures
            h.spec_ptr() == 0,
    {
        VideoInputHandle { handle: None }
    }

    /// Close the device through `ffi` if the handle holds a non-NULL one;
    /// whether it did.
    pub fn close<F: VideoFfiTrait>(self, ffi: &F) -> (closed: bool)
        ensures
            closed == (self.spec_ptr() != 0),
            closed ==> exists|r: i32| #[trigger] ffi.vi_close_answer(self.spec_ptr(), r),
    {
        match self.handle {
            Some(h) => {
                if h != 0 {
                    let r = ffi.vi_close(h);
                    assert(ffi.vi_close_answer(h, r));
                    true
                } else {
                    false
                }
            },
            None => false,
        }
    }
}

/// Handle of an opened video encoder.
pub struct VideoEncoderHandle {
    handle: Option<usize>,
}

impl VideoEncoderHandle {
    /// The encoder's address, 0 when the handle holds nothing.
    pub closed spec fn spec_ptr(&self) -> usize {
        match self.handle {
            Some(h) => h,
            None => 0,
        }
    }

    /// The encoder's address, 0 when the handle holds nothing.
    pub fn as_ptr(&self) -> (p: usize)
        ensures
            p == self.spec_ptr(),
    {
        match self.handle {
            Some(h) => h,
            None => 0,
        }
    }

    /// A handle that holds nothing and closes nothing.
    pub fn test_handle() -> (h: Self)
        ensures
            h.spec_ptr() == 0,
    {
        VideoEncoderHandle { handle: None }
    }

    /// Close the encoder through `ffi` if the handle holds a non-NULL one;
    /// whether it did.
    pub fn close<F: VideoFfiTrait>(self, ffi: &F) -> (closed: bool)
        ensures
            closed == (self.spec_ptr() != 0),
            closed ==> exists|r: i32| #[trigger] ffi.venc_close_answer(self.spec_ptr(), r),
    {
        match self.handle {
            Some(h) => {
                if h != 0 {
                    let r = ffi.venc_close(h);
                    assert(ffi.venc_close_answer(h, r));
                    true
                } else {
                    false
                }
            },
            None => false,
        }
    }
}

/// Message of a video device other than `DEV0`.
pub open spec fn msg_invalid_video_device(id: u32) -> Seq<char> {
    "Invalid video device ID: "@ + dec_nat(id as nat) + ". Only VideoDevice::DEV0 is supported"@
}

/// What the SDK's answer `raw` to opening the input device means for `res`:
/// NULL is an unavailable device, anything else the opened one.
pub open spec fn input_handle_ok(raw: usize, res: PlatformResult<VideoInputHandle>) -> bool {
    &&& raw == 0 ==> is_hardware_unavailable(res, "Video input device"@)
    &&& raw != 0 ==> (res matches Ok(h) && h.spec_ptr() == raw)
}

/// What the SDK's answer to opening the input device means: NULL is an
/// unavailable device, anything else the opened one.
pub fn input_handle_from_raw(raw: usize) -> (res: PlatformResult<VideoInputHandle>)
    ensures
        input_handle_ok(raw, res),
{
    if raw == 0 {
        Err(PlatformError::HardwareUnavailable(String::from_str("Video input device")))
    } else {
        Ok(VideoInputHandle { handle: Some(raw) })
    }
}

/// Open the video input `device` through `ffi`; only `DEV0` exists.
pub fn video_input_open_internal<F: VideoFfiTrait>(device: VideoDevice, ffi: &F) -> (res:
    PlatformResult<VideoInputHandle>)
    ensures
        device.0 != 0 ==> is_invalid_parameter(res, msg_invalid_video_device(device.0)),
        device.0 == 0 ==> exists|raw: usize|
            #[trigger] ffi.vi_open_answer(video_dev_type::Dev0, raw) && input_handle_ok(raw, res),
{
    if device.0 != 0 {
        let mut m = String::from_str("Invalid video device ID: ");
        m.append(fmt_u64(device.0 as u64).as_str());
        m.append(". Only VideoDevice::DEV0 is supported");
        return Err(PlatformError::InvalidParameter(m));
    }
    let raw = ffi.vi_open(video_dev_type::Dev0);
    let res = input_handle_from_raw(raw);
    assert(ffi.vi_open_answer(video_dev_type::Dev0, raw) && input_handle_ok(raw, res));
    res
}

/// Open the video input `device` through the host build's backend.
pub fn video_input_open(device: VideoDevice) -> (res: PlatformResult<VideoInputHandle>)
    ensures
        device.0 != 0 ==> is_invalid_parameter(res, msg_invalid_video_device(device.0)),
        device.0 == 0 ==> (res matches Ok(h) && h.spec_ptr() == STUB_HANDLE),
{
    if device.0 != 0 {
        let mut m = String::from_str("Invalid video device ID: ");
        m.append(fmt_u64(device.0 as u64).as_str());
        m.append(". Only VideoDevice::DEV0 is supported");
        return Err(PlatformError::InvalidParameter(m));
    }
    let raw = StubVideoFfi.vi_open(video_dev_type::Dev0);
    input_handle_from_raw(raw)
}

/// What the SDK's sensor-resolution answer means: the SDK status first,
/// then a negative width or height is refused, else the resolution.
pub open spec fn sensor_resolution_ok(ret: i32, raw: video_resolution, res: PlatformResult<Resolution>) -> bool {
    &&& ret != AK_SUCCESS_I32 ==> sdk_result_ok(ret, "ak_vi_get_sensor_resolution"@, res)
    &&& ret == AK_SUCCESS_I32 && raw.width < 0 ==> is_invalid_parameter(res, "width must be non-negative"@)
    &&& ret == AK_SUCCESS_I32 && raw.width >= 0 && raw.height < 0 ==> is_invalid_parameter(
        res,
        "height must be non-negative"@,
    )
    &&& ret == AK_SUCCESS_I32 && raw.width >= 0 && raw.height >= 0 ==> res == Ok::<
        Resolution,
        PlatformError,
    >(Resolution { width: raw.width as u32, height: raw.height as u32 })
}

/// Decode the SDK's sensor-resolution answer: see [`sensor_resolution_ok`].
pub fn sensor_resolution_outcome(ret: i32, raw: video_resolution) -> (res: PlatformResult<Resolution>)
    ensures
        sensor_resolution_ok(ret, raw, res),
{
    if ret != AK_SUCCESS_I32 {
        return match check_result(ret, "ak_vi_get_sensor_resolution") {
            Ok(()) => Ok(Resolution { width: 0, height: 0 }),
            Err(e) => Err(e),
        };
    }
    if raw.width < 0 {
        return Err(PlatformError::InvalidParameter(String::from_str("width must be non-negative")));
    }
    if raw.height < 0 {
        return Err(PlatformError::InvalidParameter(String::from_str("height must be non-negative")));
    }
    Ok(Resolution { width: raw.width as u32, height: raw.height as u32 })
}

/// Read the sensor resolution through `ffi` (its answer buffer starts zeroed).
pub fn video_input_get_sensor_resolution_internal<F: VideoFfiTrait>(
    handle: &VideoInputHandle,
    ffi: &F,
) -> (res: PlatformResult<Resolution>)
    ensures
        exists|ret: i32, raw: video_resolution|
            #[trigger] ffi.sensor_resolution_answer(handle.spec_ptr(), raw, ret) && sensor_resolution_ok(ret, raw, res),
{
    let mut raw = video_resolution { width: 0, height: 0, max_width: 0, max_height: 0 };
    let ret = ffi.vi_get_sensor_resolution(handle.as_ptr(), &mut raw);
    let res = sensor_resolution_outcome(ret, raw);
    assert(ffi.sensor_resolution_answer(handle.spec_ptr(), raw, ret) && sensor_resolution_ok(ret, raw, res));
    res
}

/// Read the sensor resolution through the host build's backend.
pub fn video_input_get_sensor_resolution(handle: &VideoInputHandle) -> (res: PlatformResult<Resolution>)
    ensures
        res == Ok::<Resolution, PlatformError>(Resolution { width: 1920, height: 1080 }),
{
    let mut raw = video_resolution { width: 0, height: 0, max_width: 0, max_height: 0 };
    let ret = StubVideoFfi.vi_get_sensor_resolution(handle.as_ptr(), &mut raw);
    sensor_resolution_outcome(ret, raw)
}

/// Set the channel attributes through `ffi`.
pub fn video_input_set_channel_attr_internal<F: VideoFfiTrait>(
    handle: &VideoInputHandle,
    attr: &video_channel_attr,
    ffi: &F,
) -> (res: PlatformResult<()>)
    ensures
        exists|ret: i32|
            #[trigger] ffi.channel_attr_answer(handle.spec_ptr(), *attr, ret) && sdk_result_ok(ret, "ak_vi_set_channel_attr"@, res),
{
    let ret = ffi.vi_set_channel_attr(handle.as_ptr(), attr);
    let res = check_result(ret, "ak_vi_set_channel_attr");
    assert(ffi.channel_attr_answer(handle.spec_ptr(), *attr, ret) && sdk_result_ok(ret, "ak_vi_set_channel_attr"@, res));
    res
}

/// Set the channel attributes through the host build's backend.
pub fn video_input_set_channel_attr(handle: &VideoInputHandle, attr: &video_channel_attr) -> (res:
    PlatformResult<()>)
    ensures
        res is Ok,
{
    let ret = StubVideoFfi.vi_set_channel_attr(handle.as_ptr(), attr);
    check_result(ret, "ak_vi_set_channel_attr")
}

/// Load the ISP sensor configuration at `config_path` through `ffi`; a path
/// with a NUL byte cannot be handed to the SDK.
pub fn video_input_match_sensor_internal<F: VideoFfiTrait>(config_path: &str, ffi: &F) -> (res:
    PlatformResult<()>)
    ensures
        config_path.spec_bytes().contains(0u8) ==> is_invalid_parameter(
            res,
            "ISP config path contains null byte"@,
        ),
        !config_path.spec_bytes().contains(0u8) ==> exists|ret: i32|
            #[trigger] ffi.match_sensor_answer(config_path@, ret) && sdk_result_ok(ret, "ak_vi_match_sensor"@, res),
{
    if has_nul_byte(config_path) {
        return Err(PlatformError::InvalidParameter(String::from_str("ISP config path contains null byte")));
    }
    let ret = ffi.vi_match_sensor(config_path);
    let res = check_result(ret, "ak_vi_match_sensor");
    assert(ffi.match_sensor_answer(config_path@, ret) && sdk_result_ok(ret, "ak_vi_match_sensor"@, res));
    res
}

/// Load the ISP sensor configuration through the host build's backend.
pub fn video_input_match_sensor(config_path: &str) -> (res: PlatformResult<()>)
    ensures
        config_path.spec_bytes().contains(0u8) ==> is_invalid_parameter(
            res,
            "ISP config path contains null byte"@,
        ),
        !config_path.spec_bytes().contains(0u8) ==> res is Ok,
{
    if has_nul_byte(config_path) {
        return Err(PlatformError::InvalidParameter(String::from_str("ISP config path contains null byte")));
    }
    let ret = StubVideoFfi.vi_match_sensor(config_path);
    check_result(ret, "ak_vi_match_sensor")
}

/// Start the capture pipeline through `ffi`.
pub fn video_input_capture_on_internal<F: VideoFfiTrait>(handle: &VideoInputHandle, ffi: &F) -> (res:
    PlatformResult<()>)
    ensures
        exists|ret: i32|
            #[trigger] ffi.capture_on_answer(handle.spec_ptr(), ret) && sdk_result_ok(ret, "ak_vi_capture_on"@, res),
{
    let ret = ffi.vi_capture_on(handle.as_ptr());
    let res = check_result(ret, "ak_vi_capture_on");
    assert(ffi.capture_on_answer(handle.spec_ptr(), ret) && sdk_result_ok(ret, "ak_vi_capture_on"@, res));
    res
}

/// Start the capture pipeline through the host build's backend.
pub fn video_input_capture_on(handle: &VideoInputHandle) -> (res: PlatformResult<()>)
    ensures
        res is Ok,
{
    let ret = StubVideoFfi.vi_capture_on(handle.as_ptr());
    check_result(ret, "ak_vi_capture_on")
}

/// What the SDK's answer `raw` to opening an encoder means for `res`: NULL
/// is an unavailable encoder, anything else the opened one.
pub open spec fn encoder_handle_ok(raw: usize, res: PlatformResult<VideoEncoderHandle>) -> bool {
    &&& raw == 0 ==> is_hardware_unavailable(res, "Video encoder"@)
    &&& raw != 0 ==> (res matches Ok(h) && h.spec_ptr() == raw)
}

/// What the SDK's answer to opening an encoder means: NULL is an
/// unavailable encoder, anything else the opened one.
pub fn encoder_handle_from_raw(raw: usize) -> (res: PlatformResult<VideoEncoderHandle>)
    ensures
        encoder_handle_ok(raw, res),
{
    if raw == 0 {
        Err(PlatformError::HardwareUnavailable(String::from_str("Video encoder")))
    } else {
        Ok(VideoEncoderHandle { handle: Some(raw) })
    }
}

/// Open an encoder with `param` through `ffi`.
pub fn video_encoder_open_internal<F: VideoFfiTrait>(param: &encode_param, ffi: &F) -> (res:
    PlatformResult<VideoEncoderHandle>)
    ensures
        exists|raw: usize| #[trigger] ffi.venc_open_answer(*param, raw) && encoder_handle_ok(raw, res),
{
    let raw = ffi.venc_open(param);
    let res = encoder_handle_from_raw(raw);
    assert(ffi.venc_open_answer(*param, raw) && encoder_handle_ok(raw, res));
    res
}

/// Open an encoder with `param` through the host build's backend.
pub fn video_encoder_open(param: &encode_param) -> (res: PlatformResult<VideoEncoderHandle>)
    ensures
        res matches Ok(h) && h.spec_ptr() == STUB_HANDLE,
{
    let raw = StubVideoFfi.venc_open(param);
    encoder_handle_from_raw(raw)
}

/// Set the encoder's bitrate through `ffi`; a bitrate that is not positive
/// is refused before any call.
pub fn video_encoder_set_rc_internal<F: VideoFfiTrait>(handle: &VideoEncoderHandle, bps: i32, ffi: &F) -> (res:
    PlatformResult<()>)
    ensures
        bps <= 0 ==> is_invalid_parameter(res, "bitrate must be positive"@),
        bps > 0 ==> exists|ret: i32|
            #[trigger] ffi.venc_rc_answer(handle.spec_ptr(), bps, ret) && sdk_result_ok(ret, "ak_venc_set_rc"@, res),
{
    if bps <= 0 {
        return Err(PlatformError::InvalidParameter(String::from_str("bitrate must be positive")));
    }
    let ret = ffi.venc_set_rc(handle.as_ptr(), bps);
    let res = check_result(ret, "ak_venc_set_rc");
    assert(ffi.venc_rc_answer(handle.spec_ptr(), bps, ret) && sdk_result_ok(ret, "ak_venc_set_rc"@, res));
    res
}

/// Set the encoder's bitrate through the host build's backend.
pub fn video_encoder_set_rc(handle: &VideoEncoderHandle, bps: i32) -> (res: PlatformResult<()>)
    ensures
        bps <= 0 ==> is_invalid_parameter(res, "bitrate must be positive"@),
        bps > 0 ==> res is Ok,
{
    if bps <= 0 {
        return Err(PlatformError::InvalidParameter(String::from_str("bitrate must be positive")));
    }
    let ret = StubVideoFfi.venc_set_rc(handle.as_ptr(), bps);
    check_result(ret, "ak_venc_set_rc")
}

/// Ask for the next frame to be an IDR frame through `ffi`.
pub fn video_encoder_request_idr_internal<F: VideoFfiTrait>(handle: &VideoEncoderHandle, ffi: &F) -> (res:
    PlatformResult<()>)
    ensures
        exists|ret: i32|
            #[trigger] ffi.venc_iframe_answer(handle.spec_ptr(), ret) && sdk_result_ok(ret, "ak_venc_set_iframe"@, res),
{
    let ret = ffi.venc_set_iframe(handle.as_ptr());
    let res = check_result(ret, "ak_venc_set_iframe");
    assert(ffi.venc_iframe_answer(handle.spec_ptr(), ret) && sdk_result_ok(ret, "ak_venc_set_iframe"@, res));
    res
}

/// Ask for the next frame to be an IDR frame through the host build's backend.
pub fn video_encoder_request_idr(handle: &VideoEncoderHandle) -> (res: PlatformResult<()>)
    ensures
        res is Ok,
{
    let ret = StubVideoFfi.venc_set_iframe(handle.as_ptr());
    check_result(ret, "ak_venc_set_iframe")
}

} // verus!
