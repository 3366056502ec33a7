//! Client side of the vendor-daemon protocol: the C struct mirrors exchanged
//! on the control socket, the shared-memory frame ring, and the decisions the
//! client takes on what the daemon sends back.

pub mod audio;
pub mod imaging;
pub mod osd;
pub mod protocol;
pub mod ring_laws;
pub mod shm_ring;

use vstd::prelude::*;

verus! {

/// Video device type, as the daemon's C enum value.
#[derive(Debug, Clone, Copy, Default)]
pub struct IpcVideoDevType(pub i32);

/// Video resolution (C `struct video_resolution`).
#[derive(Debug, Clone, Copy, Default)]
pub struct IpcVideoResolution {
    pub width: i32,
    pub height: i32,
    pub max_width: i32,
    pub max_height: i32,
}

/// Crop info (C `struct crop_info`).
#[derive(Debug, Clone, Copy, Default)]
pub struct IpcCropInfo {
    pub left: i32,
    pub top: i32,
    pub width: i32,
    pub height: i32,
}

/// Video channel attributes (C `struct video_channel_attr`).
#[derive(Debug, Clone, Copy, Default)]
pub struct IpcVideoChannelAttr {
    pub crop: IpcCropInfo,
    pub res: [IpcVideoResolution; 2],
}

/// Encode group type (C enum, codes 0..=3 in declaration order).
#[derive(Debug, Clone, Copy, Default)]
#[allow(non_camel_case_types)]
pub enum IpcEncodeGroupType {
    #[default]
    ENCODE_RECORD,
    ENCODE_MAINCHN_NET,
    ENCODE_SUBCHN_NET,
    ENCODE_PICTURE,
}

/// Encode use channel (C enum, codes 0..=1).
#[derive(Debug, Clone, Copy, Default)]
#[allow(non_camel_case_types)]
pub enum IpcEncodeUseChn {
    #[default]
    ENCODE_MAIN_CHN,
    ENCODE_SUB_CHN,
}

/// Encode output type (C enum, codes 0..=2).
#[derive(Debug, Clone, Copy, Default)]
#[allow(non_camel_case_types)]
pub enum IpcEncodeOutputType {
    #[default]
    H264_ENC_TYPE,
    MJPEG_ENC_TYPE,
    HEVC_ENC_TYPE,
}

/// Bitrate control mode (C enum, codes 0..=1).
#[derive(Debug, Clone, Copy, Default)]
#[allow(non_camel_case_types)]
pub enum IpcBitrateCtrlMode {
    #[default]
    BR_MODE_CBR,
    BR_MODE_VBR,
}

/// Profile mode (C enum, codes 0..=4).
#[derive(Debug, Clone, Copy, Default)]
#[allow(non_camel_case_types)]
pub enum IpcProfileMode {
    #[default]
    PROFILE_MAIN,
    PROFILE_HIGH,
    PROFILE_BASE,
    PROFILE_HEVC_MAIN,
    PROFILE_HEVC_MAIN_STILL,
}

/// Encode parameters (C `struct encode_param`).
#[derive(Debug, Clone, Copy, Default)]
pub struct IpcEncodeParam {
    pub width: u32,
    pub height: u32,
    pub minqp: i32,
    pub maxqp: i32,
    pub fps: i32,
    pub goplen: i32,
    pub bps: i32,
    pub profile: IpcProfileMode,
    pub use_chn: IpcEncodeUseChn,
    pub enc_grp: IpcEncodeGroupType,
    pub br_mode: IpcBitrateCtrlMode,
    pub enc_out_type: IpcEncodeOutputType,
}

/// PCM parameters (C `struct pcm_param`).
#[derive(Debug, Clone, Copy, Default)]
pub struct IpcPcmParam {
    pub sample_rate: u32,
    pub sample_bits: u32,
    pub channel_num: u32,
}

/// Audio parameters (C `struct audio_param`).
#[derive(Debug, Clone, Copy, Default)]
pub struct IpcAudioParam {
    pub sample_rate: u32,
    pub channel_num: u32,
    pub sample_bits: u32,
    pub type_: i32,
}

/// Audio encoder attributes (C `struct aenc_attr`).
#[derive(Debug, Clone, Copy, Default)]
pub struct IpcAencAttr {
    pub aac_head: i32,
}

/// Video frame type (C enum, codes 0..=3).
#[derive(Debug, Clone, Copy, Default)]
#[allow(non_camel_case_types)]
pub enum IpcVideoFrameType {
    #[default]
    FrameTypeP,
    FrameTypeI,
    FrameTypeB,
    FrameTypePi,
}

/// A detection site's report that the vendor daemon peer is gone.
///
/// Carries a reason for the log only: detection sites report, and only the
/// supervisor re-attaches.
#[derive(Debug, Clone)]
pub struct PeerLoss {
    /// Which site noticed, and how.
    pub reason: String,
}

} // verus!
