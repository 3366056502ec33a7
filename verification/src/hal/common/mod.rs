//! Shared HAL pieces: SDK type mirrors, SDK result mapping, and the PTZ,
//! imaging and audio logic that sits above the vendor calls.

pub mod audio;
pub mod imaging;
pub mod ptz;
pub mod sdk_types;
pub mod video;

pub use sdk_types::{
    aenc_attr, audio_param, bitrate_ctrl_mode, encode_group_type, encode_output_type,
    encode_param, encode_use_chn, pcm_param, profile_mode, ptz_device, ptz_feedback_pin,
    ptz_turn_direction, video_channel_attr, video_dev_type, video_frame_type, video_resolution,
    AencAttr, AudioParam, BitrateCtrlMode, CropInfo, EncodeGroupType, EncodeOutputType,
    EncodeParam, EncodeUseChn, PcmParam, ProfileMode, PtzDevice, PtzFeedbackPin,
    PtzTurnDirection, VideoChannelAttr, VideoDevType, VideoFrameType, VideoResolution, AK_FAILED,
    AK_FALSE, AK_SUCCESS, AK_TRUE,
};

use vstd::prelude::*;

use crate::platform::{is_hardware_failure, PlatformError, PlatformResult};
use crate::text::{dec_int, fmt_i64};

verus! {

/// Anyka SDK success code as i32.
pub const AK_SUCCESS_I32: i32 = 0;
/// Anyka SDK failure code as i32.
pub const AK_FAILED_I32: i32 = -1;

/// The failure message for SDK return code `ret` (not `AK_SUCCESS`):
/// "<context> failed" for `AK_FAILED`, "<context>: error code <ret>" otherwise.
pub open spec fn sdk_error_message(ret: i32, context: Seq<char>) -> Seq<char> {
    if ret == AK_FAILED_I32 {
        context + " failed"@
    } else {
        context + ": error code "@ + dec_int(ret as int)
    }
}

/// What an SDK return code means: `Ok` for `AK_SUCCESS`, otherwise a hardware
/// failure carrying [`sdk_error_message`].
pub open spec fn sdk_result_ok<T>(ret: i32, context: Seq<char>, res: PlatformResult<T>) -> bool {
    &&& ret == AK_SUCCESS_I32 ==> res is Ok
    &&& ret != AK_SUCCESS_I32 ==> is_hardware_failure(res, sdk_error_message(ret, context))
}

/// `res` failed as some SDK call under `context` fails: a hardware failure
/// whose message is that of some non-success return code.
pub open spec fn failed_as_sdk_call<T>(res: PlatformResult<T>, context: Seq<char>) -> bool {
    exists|ret: i32|
        ret != AK_SUCCESS_I32 && is_hardware_failure(res, #[trigger] sdk_error_message(ret, context))
}

/// Convert an SDK return code to a `PlatformResult`.
pub fn check_result(ret: i32, context: &str) -> (res: PlatformResult<()>)
    ensures
        sdk_result_ok(ret, context@, res),
{
    if ret == AK_SUCCESS_I32 {
        Ok(())
    } else if ret == AK_FAILED_I32 {
        let mut m = String::from_str(context);
        m.append(" failed");
        Err(PlatformError::HardwareFailure(m))
    } else {
        let mut m = String::from_str(context);
        m.append(": error code ");
        m.append(fmt_i64(ret as i64).as_str());
        Err(PlatformError::HardwareFailure(m))
    }
}

} // verus!
