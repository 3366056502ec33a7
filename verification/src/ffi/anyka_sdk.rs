//! The Anyka SDK's error type, log levels, and configuration types, with the
//! host build's SDK calls.

use vstd::prelude::*;

use crate::ffi::ipc::has_nul_byte;
use vstd::string::StringSliceAdditionalSpecFns;
use crate::text::{dec_int, fmt_i64};

pub use crate::hal::anyka::sdk::{PtzDirection, PtzMotor, Resolution, VideoDevice};

verus! {

/// Errors reported by Anyka SDK calls.
#[derive(Debug)]
pub enum AnykaError {
    /// The SDK returned an error code.
    SdkError(i32),
    /// An invalid parameter was passed.
    InvalidParameter(String),
    /// A resource is not available.
    ResourceUnavailable(String),
    /// The operation timed out.
    Timeout,
    /// The hardware failed.
    HardwareFailure(String),
    /// The SDK is not initialized.
    NotInitialized,
}

/// Result type of SDK calls.
pub type AnykaResult<T> = Result<T, AnykaError>;

impl AnykaError {
    /// The error's human-readable text.
    pub open spec fn spec_text(&self) -> Seq<char> {
        match self {
            AnykaError::SdkError(code) => "Anyka SDK error: "@ + dec_int(*code as int),
            AnykaError::InvalidParameter(m) => "Invalid parameter: "@ + m@,
            AnykaError::ResourceUnavailable(m) => "Resource not available: "@ + m@,
            AnykaError::Timeout => "Operation timed out"@,
            AnykaError::HardwareFailure(m) => "Hardware failure: "@ + m@,
            AnykaError::NotInitialized => "SDK not initialized"@,
        }
    }

    /// The error's human-readable text.
    pub fn message(&self) -> (s: String)
        ensures
            s@ == self.spec_text(),
    {
        match self {
            AnykaError::SdkError(code) => {
                let mut s = String::from_str("Anyka SDK error: ");
                s.append(fmt_i64(*code as i64).as_str());
                s
            },
            AnykaError::InvalidParameter(m) => {
                let mut s = String::from_str("Invalid parameter: ");
                s.append(m.as_str());
                s
            },
            AnykaError::ResourceUnavailable(m) => {
                let mut s = String::from_str("Resource not available: ");
                s.append(m.as_str());
                s
            },
            AnykaError::Timeout => String::from_str("Operation timed out"),
            AnykaError::HardwareFailure(m) => {
                let mut s = String::from_str("Hardware failure: ");
                s.append(m.as_str());
                s
            },
            AnykaError::NotInitialized => String::from_str("SDK not initialized"),
        }
    }
}

/// Log level of SDK logging; variant `k` is level `k`.
#[derive(Debug, Clone, Copy, PartialEq, Eq, Structural)]
pub enum LogLevel {
    /// Reserved (not used).
    Reserved,
    /// Error messages.
    Error,
    /// Warning messages.
    Warning,
    /// Notice messages.
    Notice,
    /// Normal messages.
    Normal,
    /// Info messages.
    Info,
    /// Debug messages.
    Debug,
}

/// The log level of a numeric level; unknown levels are `Debug`.
pub open spec fn spec_log_level(value: i32) -> LogLevel {
    if value == 0 {
        LogLevel::Reserved
    } else if value == 1 {
        LogLevel::Error
    } else if value == 2 {
        LogLevel::Warning
    } else if value == 3 {
        LogLevel::Notice
    } else if value == 4 {
        LogLevel::Normal
    } else if value == 5 {
        LogLevel::Info
    } else {
        LogLevel::Debug
    }
}

impl From<i32> for LogLevel {
    fn from(value: i32) -> (r: Self) {
        match value {
            0 => LogLevel::Reserved,
            1 => LogLevel::Error,
            2 => LogLevel::Warning,
            3 => LogLevel::Notice,
            4 => LogLevel::Normal,
            5 => LogLevel::Info,
            6 => LogLevel::Debug,
            _ => LogLevel::Debug,
        }
    }
}

impl vstd::std_specs::convert::FromSpecImpl<i32> for LogLevel {
    open spec fn obeys_from_spec() -> bool {
        true
    }

    open spec fn from_spec(v: i32) -> Self {
        spec_log_level(v)
    }
}

/// Video channel identifier.
#[derive(Debug, Clone, Copy, PartialEq, Eq, Structural, Default)]
pub struct VideoChannel(pub u32);

impl VideoChannel {
    /// Main video channel (high resolution).
    #[allow(non_snake_case)]
    pub fn MAIN() -> (c: VideoChannel)
        ensures
            c.0 == 0,
    {
        VideoChannel(0)
    }

    /// Sub video channel (low resolution).
    #[allow(non_snake_case)]
    pub fn SUB() -> (c: VideoChannel)
        ensures
            c.0 == 1,
    {
        VideoChannel(1)
    }
}

/// Video encoding type.
#[derive(Debug, Clone, Copy, PartialEq, Eq, Structural, Default)]
pub enum VideoEncoding {
    /// H.264/AVC.
    #[default]
    H264,
    /// H.265/HEVC.
    H265,
    /// MJPEG.
    Mjpeg,
}

/// Bitrate control mode.
#[derive(Debug, Clone, Copy, PartialEq, Eq, Structural, Default)]
pub enum BitrateMode {
    /// Constant bitrate.
    #[default]
    Cbr,
    /// Variable bitrate.
    Vbr,
}

/// Video encoder configuration.
#[derive(Debug, Clone, Default)]
pub struct VideoEncoderConfig {
    /// Output resolution.
    pub resolution: Resolution,
    /// Frames per second.
    pub framerate: u32,
    /// Target bitrate in kbps.
    pub bitrate: u32,
    /// Encoding type.
    pub encoding: VideoEncoding,
    /// Bitrate control mode.
    pub bitrate_mode: BitrateMode,
    /// GOP length (I-frame interval).
    pub gop_length: u32,
    /// Quality level (0-100).
    pub quality: u32,
}

/// Audio encoding type.
#[derive(Debug, Clone, Copy, PartialEq, Eq, Structural, Default)]
pub enum AudioEncoding {
    /// G.711 mu-law.
    #[default]
    G711U,
    /// G.711 A-law.
    G711A,
    /// AAC.
    Aac,
    /// Raw PCM.
    Pcm,
}

/// Audio encoder configuration.
#[derive(Debug, Clone, Default)]
pub struct AudioEncoderConfig {
    /// Sample rate in Hz.
    pub sample_rate: u32,
    /// Number of channels.
    pub channels: u32,
    /// Bits per sample.
    pub bits_per_sample: u32,
    /// Encoding type.
    pub encoding: AudioEncoding,
    /// Bitrate in kbps.
    pub bitrate: u32,
}

/// Check a message for the SDK logger, which takes a C string: a message
/// with a NUL byte cannot be handed over.
pub fn log_message_check(message: &str) -> (res: AnykaResult<()>)
    ensures
        res is Ok <==> !message.spec_bytes().contains(0u8),
        res matches Err(e) ==> (e matches AnykaError::InvalidParameter(m)
            && m@ == "Message contains null bytes or invalid UTF-8"@),
{
    if has_nul_byte(message) {
        Err(AnykaError::InvalidParameter(String::from_str("Message contains null bytes or invalid UTF-8")))
    } else {
        Ok(())
    }
}

/// What a status code of the SDK's PTZ calls means: a negative code is the
/// SDK's error, any other code is success.
pub fn sdk_status(code: i32) -> (res: AnykaResult<()>)
    ensures
        code >= 0 ==> res is Ok,
        code < 0 ==> (res matches Err(AnykaError::SdkError(c)) && c == code),
{
    if code < 0 {
        Err(AnykaError::SdkError(code))
    } else {
        Ok(())
    }
}

/// What the SDK's step-position call returned: a negative code is the SDK's
/// error, any other value is the motor's step position.
pub fn sdk_step_position(code: i32) -> (res: AnykaResult<i32>)
    ensures
        code >= 0 ==> (res matches Ok(p) && p == code),
        code < 0 ==> (res matches Err(AnykaError::SdkError(c)) && c == code),
{
    if code < 0 {
        Err(AnykaError::SdkError(code))
    } else {
        Ok(code)
    }
}

/// Print a message through SDK logging (the host build has no SDK logger,
/// so this accepts every message).
pub fn ak_log(_level: LogLevel, _message: &str) -> (res: AnykaResult<()>)
    ensures
        res is Ok,
{
    Ok(())
}

/// Open PTZ motor control (host build: succeeds).
pub fn ptz_open() -> (res: AnykaResult<()>)
    ensures
        res is Ok,
{
    Ok(())
}

/// Close PTZ motor control (host build: succeeds).
pub fn ptz_close() -> (res: AnykaResult<()>)
    ensures
        res is Ok,
{
    Ok(())
}

/// Turn a PTZ motor in a direction (host build: succeeds).
pub fn ptz_turn(_direction: PtzDirection) -> (res: AnykaResult<()>)
    ensures
        res is Ok,
{
    Ok(())
}

/// Stop PTZ motor movement (host build: succeeds).
pub fn ptz_stop() -> (res: AnykaResult<()>)
    ensures
        res is Ok,
{
    Ok(())
}

/// Step position of a PTZ motor (host build: always 0).
pub fn ptz_get_position(_motor: PtzMotor) -> (res: AnykaResult<i32>)
    ensures
        res matches Ok(p) && p == 0,
{
    Ok(0)
}


/// A numeric level names the level with that SDK value (reserved 0, error
/// 1, warning 2, notice 3, normal 4, info 5, debug 6); any other value is
/// debug.
pub proof fn lemma_log_level_codes(v: i32)
    ensures
        (spec_log_level(v) == LogLevel::Reserved) <==> (v == 0),
        (spec_log_level(v) == LogLevel::Error) <==> (v == 1),
        (spec_log_level(v) == LogLevel::Warning) <==> (v == 2),
        (spec_log_level(v) == LogLevel::Notice) <==> (v == 3),
        (spec_log_level(v) == LogLevel::Normal) <==> (v == 4),
        (spec_log_level(v) == LogLevel::Info) <==> (v == 5),
        (spec_log_level(v) == LogLevel::Debug) <==> !(0 <= v <= 5),
{
}

} // verus!
