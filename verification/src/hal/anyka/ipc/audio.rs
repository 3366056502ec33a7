//! Speaker playback over the vendor-daemon control socket.

use vstd::prelude::*;
use vstd::string::StringSliceAdditionalSpecFns;

use crate::hal::anyka::ipc::protocol::VD_STATUS_STALE_EPOCH;
use crate::hal::common::AK_SUCCESS_I32;
use crate::hal::wire::{le_bytes_i32, le_bytes_u32, push_i32_le, push_slice, push_u32_le};
use crate::platform::{is_hardware_failure, is_hardware_unavailable, PlatformError, PlatformResult};
use crate::text::{dec_int, fmt_i64};

verus! {

/// Result of a playback request: accepted for asynchronous playback, or
/// dropped because the speaker is busy.
#[derive(Debug, Clone, Copy, PartialEq, Eq, Structural)]
pub enum AudioPlayStatus {
    Accepted,
    Busy,
}

/// Body of the playback command: `[u32 rate][u32 channels][i32 volume]
/// [u32 path_len][path NUL]`, where `path_len` counts the NUL.
pub fn audio_play_request(path: &str, sample_rate: u32, channels: u32, volume: i32) -> (req: Vec<u8>)
    requires
        path.spec_bytes().len() + 1 <= u32::MAX,
    ensures
        req@ == le_bytes_u32(sample_rate) + le_bytes_u32(channels) + le_bytes_i32(volume)
            + le_bytes_u32((path.spec_bytes().len() + 1) as u32) + path.spec_bytes() + seq![0u8],
{
    let path_bytes = path.as_bytes();
    let path_len = (path_bytes.len() + 1) as u32;
    let mut req: Vec<u8> = Vec::new();
    push_u32_le(&mut req, sample_rate);
    push_u32_le(&mut req, channels);
    push_i32_le(&mut req, volume);
    push_u32_le(&mut req, path_len);
    push_slice(&mut req, path_bytes);
    req.push(0);
    req
}

/// Message of a playback request the daemon refused as stale.
pub open spec fn msg_audio_play_stale() -> Seq<char> {
    "vendor daemon rejected CMD_AUDIO_PLAY as a stale handle; the attachment is from a dead generation"@
}

/// Message of a failed playback request.
pub open spec fn msg_audio_play_failed(status: i32) -> Seq<char> {
    "CMD_AUDIO_PLAY failed with status "@ + dec_int(status as int)
}

/// What the daemon's status for a playback request means. A stale-epoch
/// status is an attachment problem; `busy_status` (the daemon's busy code)
/// is a normal outcome, the request dropped; any other non-success status
/// fails; success is an accepted request.
pub fn audio_play_outcome(status: i32, busy_status: i32) -> (res: PlatformResult<AudioPlayStatus>)
    ensures
        status == VD_STATUS_STALE_EPOCH ==> is_hardware_unavailable(res, msg_audio_play_stale()),
        status != VD_STATUS_STALE_EPOCH && status == busy_status ==> res == Ok::<
            AudioPlayStatus,
            PlatformError,
        >(AudioPlayStatus::Busy),
        status != VD_STATUS_STALE_EPOCH && status != busy_status && status != AK_SUCCESS_I32
            ==> is_hardware_failure(res, msg_audio_play_failed(status)),
        status != VD_STATUS_STALE_EPOCH && status != busy_status && status == AK_SUCCESS_I32
            ==> res == Ok::<AudioPlayStatus, PlatformError>(AudioPlayStatus::Accepted),
{
    if status == VD_STATUS_STALE_EPOCH {
        return Err(
            PlatformError::HardwareUnavailable(
                String::from_str(
                    "vendor daemon rejected CMD_AUDIO_PLAY as a stale handle; the attachment is from a dead generation",
                ),
            ),
        );
    }
    if status == busy_status {
        return Ok(AudioPlayStatus::Busy);
    }
    if status != AK_SUCCESS_I32 {
        let mut m = String::from_str("CMD_AUDIO_PLAY failed with status ");
        m.append(fmt_i64(status as i64).as_str());
        return Err(PlatformError::HardwareFailure(m));
    }
    Ok(AudioPlayStatus::Accepted)
}

} // verus!
