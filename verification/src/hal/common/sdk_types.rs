//! Mirrors of the Anyka SDK's C types, as plain Rust values.
//!
//! Each enum's variants are declared in the order of their SDK codes, so
//! variant `k` carries code `k`; `code()` gives that number to verified code.

use vstd::prelude::*;

verus! {

/// SDK success return code.
pub const AK_SUCCESS: i32 = 0;
/// SDK generic failure return code.
pub const AK_FAILED: i32 = -1;
/// SDK boolean false.
pub const AK_FALSE: i32 = 0;
/// SDK boolean true.
pub const AK_TRUE: i32 = 1;

/// Video device type.
#[derive(Debug, Clone, Copy, PartialEq, Eq, Structural)]
pub enum VideoDevType {
    Dev0,
}

impl VideoDevType {
    /// The SDK code of the device type.
    pub fn code(&self) -> (c: i32)
        ensures
            c == 0,
    {
        0
    }
}

/// Video resolution.
#[derive(Debug, Clone, Copy, Default)]
pub struct VideoResolution {
    pub width: i32,
    pub height: i32,
    pub max_width: i32,
    pub max_height: i32,
}

/// Encode group type.
#[derive(Debug, Clone, Copy, PartialEq, Eq, Structural, Default)]
#[allow(non_camel_case_types)]
pub enum EncodeGroupType {
    #[default]
    ENCODE_RECORD,
    ENCODE_MAINCHN_NET,
    ENCODE_SUBCHN_NET,
    ENCODE_PICTURE,
    ENCODE_GRP_NUM,
}

impl EncodeGroupType {
    /// The SDK code of the group.
    pub open spec fn spec_code(&self) -> int {
        match self {
            EncodeGroupType::ENCODE_RECORD => 0,
            EncodeGroupType::ENCODE_MAINCHN_NET => 1,
            EncodeGroupType::ENCODE_SUBCHN_NET => 2,
            EncodeGroupType::ENCODE_PICTURE => 3,
            EncodeGroupType::ENCODE_GRP_NUM => 4,
        }
    }

    /// The SDK code of the group.
    pub fn code(&self) -> (c: i32)
        ensures
            c == self.spec_code(),
            *self == EncodeGroupType::ENCODE_RECORD ==> c == 0,
            *self == EncodeGroupType::ENCODE_MAINCHN_NET ==> c == 1,
            *self == EncodeGroupType::ENCODE_SUBCHN_NET ==> c == 2,
            *self == EncodeGroupType::ENCODE_PICTURE ==> c == 3,
            *self == EncodeGroupType::ENCODE_GRP_NUM ==> c == 4,
    {
        match self {
            EncodeGroupType::ENCODE_RECORD => 0,
            EncodeGroupType::ENCODE_MAINCHN_NET => 1,
            EncodeGroupType::ENCODE_SUBCHN_NET => 2,
            EncodeGroupType::ENCODE_PICTURE => 3,
            EncodeGroupType::ENCODE_GRP_NUM => 4,
        }
    }
}

/// Each encode group goes to the SDK as its enumerator's value in the SDK's own
/// enum (ENCODE_RECORD 0, ENCODE_MAINCHN_NET 1, ENCODE_SUBCHN_NET 2, ENCODE_PICTURE 3, ENCODE_GRP_NUM 4), and no two of them share a code.
pub proof fn lemma_encode_group_codes_are_the_sdk_values(x: EncodeGroupType)
    ensures
        (x == EncodeGroupType::ENCODE_RECORD) <==> (x.spec_code() == 0),
        (x == EncodeGroupType::ENCODE_MAINCHN_NET) <==> (x.spec_code() == 1),
        (x == EncodeGroupType::ENCODE_SUBCHN_NET) <==> (x.spec_code() == 2),
        (x == EncodeGroupType::ENCODE_PICTURE) <==> (x.spec_code() == 3),
        (x == EncodeGroupType::ENCODE_GRP_NUM) <==> (x.spec_code() == 4),
{
}

/// Encode use channel.
#[derive(Debug, Clone, Copy, PartialEq, Eq, Structural, Default)]
#[allow(non_camel_case_types)]
pub enum EncodeUseChn {
    #[default]
    ENCODE_MAIN_CHN,
    ENCODE_SUB_CHN,
}

impl EncodeUseChn {
    /// The SDK code of the channel.
    pub open spec fn spec_code(&self) -> int {
        match self {
            EncodeUseChn::ENCODE_MAIN_CHN => 0,
            EncodeUseChn::ENCODE_SUB_CHN => 1,
        }
    }

    /// The SDK code of the channel.
    pub fn code(&self) -> (c: i32)
        ensures
            c == self.spec_code(),
            *self == EncodeUseChn::ENCODE_MAIN_CHN ==> c == 0,
            *self == EncodeUseChn::ENCODE_SUB_CHN ==> c == 1,
    {
        match self {
            EncodeUseChn::ENCODE_MAIN_CHN => 0,
            EncodeUseChn::ENCODE_SUB_CHN => 1,
        }
    }
}

/// Each encode channel goes to the SDK as its enumerator's value in the SDK's own
/// enum (ENCODE_MAIN_CHN 0, ENCODE_SUB_CHN 1), and no two of them share a code.
pub proof fn lemma_encode_channel_codes_are_the_sdk_values(x: EncodeUseChn)
    ensures
        (x == EncodeUseChn::ENCODE_MAIN_CHN) <==> (x.spec_code() == 0),
        (x == EncodeUseChn::ENCODE_SUB_CHN) <==> (x.spec_code() == 1),
{
}

/// Encode output type.
#[derive(Debug, Clone, Copy, PartialEq, Eq, Structural, Default)]
#[allow(non_camel_case_types)]
pub enum EncodeOutputType {
    #[default]
    H264_ENC_TYPE,
    MJPEG_ENC_TYPE,
    HEVC_ENC_TYPE,
}

impl EncodeOutputType {
    /// The SDK code of the output type.
    pub open spec fn spec_code(&self) -> int {
        match self {
            EncodeOutputType::H264_ENC_TYPE => 0,
            EncodeOutputType::MJPEG_ENC_TYPE => 1,
            EncodeOutputType::HEVC_ENC_TYPE => 2,
        }
    }

    /// The SDK code of the output type.
    pub fn code(&self) -> (c: i32)
        ensures
            c == self.spec_code(),
            *self == EncodeOutputType::H264_ENC_TYPE ==> c == 0,
            *self == EncodeOutputType::MJPEG_ENC_TYPE ==> c == 1,
            *self == EncodeOutputType::HEVC_ENC_TYPE ==> c == 2,
    {
        match self {
            EncodeOutputType::H264_ENC_TYPE => 0,
            EncodeOutputType::MJPEG_ENC_TYPE => 1,
            EncodeOutputType::HEVC_ENC_TYPE => 2,
        }
    }
}

/// Each encoder output type goes to the SDK as its enumerator's value in the SDK's own
/// enum (H264_ENC_TYPE 0, MJPEG_ENC_TYPE 1, HEVC_ENC_TYPE 2), and no two of them share a code.
pub proof fn lemma_encode_output_codes_are_the_sdk_values(x: EncodeOutputType)
    ensures
        (x == EncodeOutputType::H264_ENC_TYPE) <==> (x.spec_code() == 0),
        (x == EncodeOutputType::MJPEG_ENC_TYPE) <==> (x.spec_code() == 1),
        (x == EncodeOutputType::HEVC_ENC_TYPE) <==> (x.spec_code() == 2),
{
}

/// Bitrate control mode.
#[derive(Debug, Clone, Copy, PartialEq, Eq, Structural, Default)]
#[allow(non_camel_case_types)]
pub enum BitrateCtrlMode {
    #[default]
    BR_MODE_CBR,
    BR_MODE_VBR,
}

impl BitrateCtrlMode {
    /// The SDK code of the mode.
    pub open spec fn spec_code(&self) -> int {
        match self {
            BitrateCtrlMode::BR_MODE_CBR => 0,
            BitrateCtrlMode::BR_MODE_VBR => 1,
        }
    }

    /// The SDK code of the mode.
    pub fn code(&self) -> (c: i32)
        ensures
            c == self.spec_code(),
            *self == BitrateCtrlMode::BR_MODE_CBR ==> c == 0,
            *self == BitrateCtrlMode::BR_MODE_VBR ==> c == 1,
    {
        match self {
            BitrateCtrlMode::BR_MODE_CBR => 0,
            BitrateCtrlMode::BR_MODE_VBR => 1,
        }
    }
}

/// Each bitrate control mode goes to the SDK as its enumerator's value in the SDK's own
/// enum (BR_MODE_CBR 0, BR_MODE_VBR 1), and no two of them share a code.
pub proof fn lemma_bitrate_mode_codes_are_the_sdk_values(x: BitrateCtrlMode)
    ensures
        (x == BitrateCtrlMode::BR_MODE_CBR) <==> (x.spec_code() == 0),
        (x == BitrateCtrlMode::BR_MODE_VBR) <==> (x.spec_code() == 1),
{
}

/// Profile mode.
#[derive(Debug, Clone, Copy, PartialEq, Eq, Structural, Default)]
#[allow(non_camel_case_types)]
pub enum ProfileMode {
    #[default]
    PROFILE_MAIN,
    PROFILE_HIGH,
    PROFILE_BASE,
    PROFILE_HEVC_MAIN,
    PROFILE_HEVC_MAIN_STILL,
}

impl ProfileMode {
    /// The SDK code of the profile.
    pub open spec fn spec_code(&self) -> int {
        match self {
            ProfileMode::PROFILE_MAIN => 0,
            ProfileMode::PROFILE_HIGH => 1,
            ProfileMode::PROFILE_BASE => 2,
            ProfileMode::PROFILE_HEVC_MAIN => 3,
            ProfileMode::PROFILE_HEVC_MAIN_STILL => 4,
        }
    }

    /// The SDK code of the profile.
    pub fn code(&self) -> (c: i32)
        ensures
            c == self.spec_code(),
            *self == ProfileMode::PROFILE_MAIN ==> c == 0,
            *self == ProfileMode::PROFILE_HIGH ==> c == 1,
            *self == ProfileMode::PROFILE_BASE ==> c == 2,
            *self == ProfileMode::PROFILE_HEVC_MAIN ==> c == 3,
            *self == ProfileMode::PROFILE_HEVC_MAIN_STILL ==> c == 4,
    {
        match self {
            ProfileMode::PROFILE_MAIN => 0,
            ProfileMode::PROFILE_HIGH => 1,
            ProfileMode::PROFILE_BASE => 2,
            ProfileMode::PROFILE_HEVC_MAIN => 3,
            ProfileMode::PROFILE_HEVC_MAIN_STILL => 4,
        }
    }
}

/// Each profile goes to the SDK as its enumerator's value in the SDK's own
/// enum (PROFILE_MAIN 0, PROFILE_HIGH 1, PROFILE_BASE 2, PROFILE_HEVC_MAIN 3, PROFILE_HEVC_MAIN_STILL 4), and no two of them share a code.
pub proof fn lemma_profile_codes_are_the_sdk_values(x: ProfileMode)
    ensures
        (x == ProfileMode::PROFILE_MAIN) <==> (x.spec_code() == 0),
        (x == ProfileMode::PROFILE_HIGH) <==> (x.spec_code() == 1),
        (x == ProfileMode::PROFILE_BASE) <==> (x.spec_code() == 2),
        (x == ProfileMode::PROFILE_HEVC_MAIN) <==> (x.spec_code() == 3),
        (x == ProfileMode::PROFILE_HEVC_MAIN_STILL) <==> (x.spec_code() == 4),
{
}

/// Encode parameters.
#[derive(Debug, Clone, Copy, Default)]
pub struct EncodeParam {
    pub width: u32,
    pub height: u32,
    pub minqp: i32,
    pub maxqp: i32,
    pub fps: i32,
    pub goplen: i32,
    pub bps: i32,
    pub profile: ProfileMode,
    pub use_chn: EncodeUseChn,
    pub enc_grp: EncodeGroupType,
    pub br_mode: BitrateCtrlMode,
    pub enc_out_type: EncodeOutputType,
}

/// Audio parameters.
#[derive(Debug, Clone, Copy, Default)]
pub struct AudioParam {
    pub sample_rate: u32,
    pub channel_num: u32,
    pub sample_bits: u32,
    pub type_: i32,
}

/// PTZ device (horizontal or vertical motor).
#[derive(Debug, Clone, Copy, PartialEq, Eq, Structural)]
#[allow(non_camel_case_types)]
pub enum PtzDevice {
    PTZ_DEV_H,
    PTZ_DEV_V,
}

impl PtzDevice {
    /// The device's value in the SDK's `enum ptz_device`.
    pub open spec fn spec_code(&self) -> int {
        match self {
            PtzDevice::PTZ_DEV_H => 0,
            PtzDevice::PTZ_DEV_V => 1,
        }
    }
}

/// Each PTZ device has its value in the SDK's `enum ptz_device` (horizontal
/// 0, vertical 1), and the two differ.
pub proof fn lemma_ptz_device_codes_are_the_sdk_values(x: PtzDevice)
    ensures
        (x == PtzDevice::PTZ_DEV_H) <==> (x.spec_code() == 0),
        (x == PtzDevice::PTZ_DEV_V) <==> (x.spec_code() == 1),
{
}

/// PTZ feedback pin type.
#[derive(Debug, Clone, Copy, PartialEq, Eq, Structural)]
#[allow(non_camel_case_types)]
pub enum PtzFeedbackPin {
    PTZ_FEEDBACK_PIN_NONE,
    PTZ_FEEDBACK_PIN_EXIST,
}

/// PTZ turn direction.
#[derive(Debug, Clone, Copy, PartialEq, Eq, Structural)]
#[allow(non_camel_case_types)]
pub enum PtzTurnDirection {
    PTZ_TURN_RESERVED,
    PTZ_TURN_LEFT,
    PTZ_TURN_RIGHT,
    PTZ_TURN_UP,
    PTZ_TURN_DOWN,
}

impl PtzTurnDirection {
    /// The direction's value in the SDK's `enum ptz_turn_direction`.
    pub open spec fn spec_code(&self) -> int {
        match self {
            PtzTurnDirection::PTZ_TURN_RESERVED => 0,
            PtzTurnDirection::PTZ_TURN_LEFT => 1,
            PtzTurnDirection::PTZ_TURN_RIGHT => 2,
            PtzTurnDirection::PTZ_TURN_UP => 3,
            PtzTurnDirection::PTZ_TURN_DOWN => 4,
        }
    }
}

/// Each turn direction has its value in the SDK's `enum ptz_turn_direction`
/// (reserved 0, left 1, right 2, up 3, down 4), and no two share one.
pub proof fn lemma_ptz_turn_direction_codes_are_the_sdk_values(x: PtzTurnDirection)
    ensures
        (x == PtzTurnDirection::PTZ_TURN_RESERVED) <==> (x.spec_code() == 0),
        (x == PtzTurnDirection::PTZ_TURN_LEFT) <==> (x.spec_code() == 1),
        (x == PtzTurnDirection::PTZ_TURN_RIGHT) <==> (x.spec_code() == 2),
        (x == PtzTurnDirection::PTZ_TURN_UP) <==> (x.spec_code() == 3),
        (x == PtzTurnDirection::PTZ_TURN_DOWN) <==> (x.spec_code() == 4),
{
}

/// Video channel attributes: a crop and one resolution per channel (main, sub).
#[derive(Debug, Clone, Copy, Default)]
pub struct VideoChannelAttr {
    pub crop: CropInfo,
    pub res: [VideoResolution; 2],
}

/// Crop information.
#[derive(Debug, Clone, Copy, Default)]
pub struct CropInfo {
    pub left: i32,
    pub top: i32,
    pub width: i32,
    pub height: i32,
}

/// PCM parameters for audio input.
#[derive(Debug, Clone, Copy, Default)]
pub struct PcmParam {
    pub sample_rate: u32,
    pub sample_bits: u32,
    pub channel_num: u32,
}

/// Audio encoder attributes.
#[derive(Debug, Clone, Copy, Default)]
pub struct AencAttr {
    pub aac_head: i32,
}

/// Video frame type (SDK `enum video_frame_type`).
#[derive(Debug, Clone, Copy, PartialEq, Eq, Structural)]
pub enum VideoFrameType {
    FrameTypeP,
    FrameTypeI,
    FrameTypeB,
    FrameTypePi,
}

#[allow(non_camel_case_types)]
pub type video_channel_attr = VideoChannelAttr;
#[allow(non_camel_case_types)]
pub type pcm_param = PcmParam;
#[allow(non_camel_case_types)]
pub type aenc_attr = AencAttr;
#[allow(non_camel_case_types)]
pub type encode_param = EncodeParam;
#[allow(non_camel_case_types)]
pub type video_dev_type = VideoDevType;
#[allow(non_camel_case_types)]
pub type video_resolution = VideoResolution;
#[allow(non_camel_case_types)]
pub type audio_param = AudioParam;
#[allow(non_camel_case_types)]
pub type ptz_device = PtzDevice;
#[allow(non_camel_case_types)]
pub type ptz_feedback_pin = PtzFeedbackPin;
#[allow(non_camel_case_types)]
pub type ptz_turn_direction = PtzTurnDirection;
#[allow(non_camel_case_types)]
pub type profile_mode = ProfileMode;
#[allow(non_camel_case_types)]
pub type encode_use_chn = EncodeUseChn;
#[allow(non_camel_case_types)]
pub type encode_group_type = EncodeGroupType;
#[allow(non_camel_case_types)]
pub type bitrate_ctrl_mode = BitrateCtrlMode;
#[allow(non_camel_case_types)]
pub type encode_output_type = EncodeOutputType;
#[allow(non_camel_case_types)]
pub type video_frame_type = VideoFrameType;

} // verus!
