//! The SDK's audio input and audio encoder calls behind a backend trait, the
//! handles of an opened input device and encoder, and the input volume as
//! the SDK's `ak_ai_set_volume` macro applies it.
//!
//! The SDK hands out its handles as C pointers; here a handle is the
//! pointer's address, with 0 standing for NULL.

use vstd::prelude::*;

use crate::hal::common::{aenc_attr, audio_param, check_result, pcm_param, sdk_result_ok, AK_SUCCESS_I32};
use crate::platform::{
    is_hardware_failure, is_hardware_unavailable, is_invalid_parameter, PlatformError, PlatformResult,
};
use crate::text::{dec_nat, fmt_u64};

verus! {

/// The SDK's audio entry points. Handles are addresses (0 is NULL); the
/// others return an SDK status code. Each `*_answer` relation holds of the
/// arguments and what a call with them may return.
/// A backend that does not define a relation allows every answer.
pub trait AudioFfiTrait {
    /// `h` is an address that opening the input with `param` may return (0 is NULL).
    closed spec fn ai_open_answer(&self, param: pcm_param, h: usize) -> bool {
        true
    }

    /// `r` is a status that closing input `handle` may return.
    closed spec fn ai_close_answer(&self, handle: usize, r: i32) -> bool {
        true
    }

    /// `r` is a status that setting input `handle`'s ADC volume to `vol` may return.
    closed spec fn adc_volume_answer(&self, handle: usize, vol: i32, r: i32) -> bool {
        true
    }

    /// `r` is a status that setting input `handle`'s ASLC volume to `vol` may return.
    closed spec fn aslc_volume_answer(&self, handle: usize, vol: i32, r: i32) -> bool {
        true
    }

    /// `h` is an address that opening an encoder with `param` may return (0 is NULL).
    closed spec fn aenc_open_answer(&self, param: audio_param, h: usize) -> bool {
        true
    }

    /// `r` is a status that closing encoder `handle` may return.
    closed spec fn aenc_close_answer(&self, handle: usize, r: i32) -> bool {
        true
    }

    /// `r` is a status that setting encoder `enc_handle`'s attributes to `attr` may return.
    closed spec fn aenc_attr_answer(&self, enc_handle: usize, attr: aenc_attr, r: i32) -> bool {
        true
    }

    fn ai_open(&self, param: &pcm_param) -> (h: usize)
        ensures
            self.ai_open_answer(*param, h),
    ;

    fn ai_close(&self, handle: usize) -> (r: i32)
        ensures
            self.ai_close_answer(handle, r),
    ;

    fn ai_set_adc_volume(&self, handle: usize, vol: i32) -> (r: i32)
        ensures
            self.adc_volume_answer(handle, vol, r),
    ;

    fn ai_set_aslc_volume(&self, handle: usize, vol: i32) -> (r: i32)
        ensures
            self.aslc_volume_answer(handle, vol, r),
    ;

    fn aenc_open(&self, param: &audio_param) -> (h: usize)
        ensures
            self.aenc_open_answer(*param, h),
    ;

    fn aenc_close(&self, handle: usize) -> (r: i32)
        ensures
            self.aenc_close_answer(handle, r),
    ;

    fn aenc_set_attr(&self, enc_handle: usize, attr: &aenc_attr) -> (r: i32)
        ensures
            self.aenc_attr_answer(enc_handle, *attr, r),
    ;
}

/// The address the host backend hands out for every handle.
pub const STUB_AUDIO_HANDLE: usize = 1;

/// The host build's audio backend: every call succeeds and handles are
/// [`STUB_AUDIO_HANDLE`].
pub struct StubAudioFfi;

impl AudioFfiTrait for StubAudioFfi {
    open spec fn ai_open_answer(&self, param: pcm_param, h: usize) -> bool {
        h == STUB_AUDIO_HANDLE
    }

    open spec fn ai_close_answer(&self, handle: usize, r: i32) -> bool {
        r == AK_SUCCESS_I32
    }

    open spec fn adc_volume_answer(&self, handle: usize, vol: i32, r: i32) -> bool {
        r == AK_SUCCESS_I32
    }

    open spec fn aslc_volume_answer(&self, handle: usize, vol: i32, r: i32) -> bool {
        r == AK_SUCCESS_I32
    }

    open spec fn aenc_open_answer(&self, param: audio_param, h: usize) -> bool {
        h == STUB_AUDIO_HANDLE
    }

    open spec fn aenc_close_answer(&self, handle: usize, r: i32) -> bool {
        r == AK_SUCCESS_I32
    }

    open spec fn aenc_attr_answer(&self, enc_handle: usize, attr: aenc_attr, r: i32) -> bool {
        r == AK_SUCCESS_I32
    }

    fn ai_open(&self, _param: &pcm_param) -> (h: usize)
        ensures
            h == STUB_AUDIO_HANDLE,
    {
        STUB_AUDIO_HANDLE
    }

    fn ai_close(&self, _handle: usize) -> (r: i32)
        ensures
            r == AK_SUCCESS_I32,
    {
        AK_SUCCESS_I32
    }

    fn ai_set_adc_volume(&self, _handle: usize, _vol: i32) -> (r: i32)
        ensures
            r == AK_SUCCESS_I32,
    {
        AK_SUCCESS_I32
    }

    fn ai_set_aslc_volume(&self, _handle: usize, _vol: i32) -> (r: i32)
        ensures
            r == AK_SUCCESS_I32,
    {
        AK_SUCCESS_I32
    }

    fn aenc_open(&self, _param: &audio_param) -> (h: usize)
        ensures
            h == STUB_AUDIO_HANDLE,
    {
        STUB_AUDIO_HANDLE
    }

    fn aenc_close(&self, _handle: usize) -> (r: i32)
        ensures
            r == AK_SUCCESS_I32,
    {
        AK_SUCCESS_I32
    }

    fn aenc_set_attr(&self, _enc_handle: usize, _attr: &aenc_attr) -> (r: i32)
        ensures
            r == AK_SUCCESS_I32,
    {
        AK_SUCCESS_I32
    }
}

/// Handle of an opened audio input device: its address.
pub struct AudioInputHandle {
    pub handle: usize,
}

impl AudioInputHandle {
    /// The device's address.
    pub fn as_ptr(&self) -> (p: usize)
        ensures
            p == self.handle,
    {
        self.handle
    }

    /// Close the device through `ffi` if the address is not NULL; whether it did.
    pub fn close<F: AudioFfiTrait>(self, ffi: &F) -> (closed: bool)
        ensures
            closed == (self.handle != 0),
            closed ==> exists|r: i32| #[trigger] ffi.ai_close_answer(self.handle, r),
    {
        if self.handle != 0 {
            let r = ffi.ai_close(self.handle);
            assert(ffi.ai_close_answer(self.handle, r));
            true
        } else {
            false
        }
    }
}

/// Handle of an opened audio encoder: its address.
pub struct AudioEncoderHandle {
    pub handle: usize,
}

impl AudioEncoderHandle {
    /// The encoder's address.
    pub fn as_ptr(&self) -> (p: usize)
        ensures
            p == self.handle,
    {
        self.handle
    }

    /// Close the encoder through `ffi` if the address is not NULL; whether it did.
    pub fn close<F: AudioFfiTrait>(self, ffi: &F) -> (closed: bool)
        ensures
            closed == (self.handle != 0),
            closed ==> exists|r: i32| #[trigger] ffi.aenc_close_answer(self.handle, r),
    {
        if self.handle != 0 {
            let r = ffi.aenc_close(self.handle);
            assert(ffi.aenc_close_answer(self.handle, r));
            true
        } else {
            false
        }
    }
}

/// What the SDK's answer `raw` to opening the audio input means for `res`:
/// NULL is an unavailable device, anything else the opened one.
pub open spec fn input_handle_ok(raw: usize, res: PlatformResult<AudioInputHandle>) -> bool {
    &&& raw == 0 ==> is_hardware_unavailable(res, "Audio input device"@)
    &&& raw != 0 ==> (res matches Ok(h) && h.handle == raw)
}

/// What the SDK's answer to opening the audio input means: NULL is an
/// unavailable device, anything else the opened one.
pub fn audio_input_handle_from_raw(raw: usize) -> (res: PlatformResult<AudioInputHandle>)
    ensures
        input_handle_ok(raw, res),
{
    if raw == 0 {
        Err(PlatformError::HardwareUnavailable(String::from_str("Audio input device")))
    } else {
        Ok(AudioInputHandle { handle: raw })
    }
}

/// Open the audio input with `param` through `ffi`.
pub fn audio_input_open_internal<F: AudioFfiTrait>(param: &pcm_param, ffi: &F) -> (res:
    PlatformResult<AudioInputHandle>)
    ensures
        exists|raw: usize| #[trigger] ffi.ai_open_answer(*param, raw) && input_handle_ok(raw, res),
{
    let raw = ffi.ai_open(param);
    let res = audio_input_handle_from_raw(raw);
    assert(ffi.ai_open_answer(*param, raw) && input_handle_ok(raw, res));
    res
}

/// Open the audio input with `param` through the host build's backend.
pub fn audio_input_open(param: &pcm_param) -> (res: PlatformResult<AudioInputHandle>)
    ensures
        res matches Ok(h) && h.handle == STUB_AUDIO_HANDLE,
{
    let raw = StubAudioFfi.ai_open(param);
    audio_input_handle_from_raw(raw)
}

/// What the SDK's answer `raw` to opening an audio encoder means for `res`:
/// NULL is an unavailable encoder, anything else the opened one.
pub open spec fn encoder_handle_ok(raw: usize, res: PlatformResult<AudioEncoderHandle>) -> bool {
    &&& raw == 0 ==> is_hardware_unavailable(res, "Audio encoder"@)
    &&& raw != 0 ==> (res matches Ok(h) && h.handle == raw)
}

/// What the SDK's answer to opening an audio encoder means: NULL is an
/// unavailable encoder, anything else the opened one.
pub fn audio_encoder_handle_from_raw(raw: usize) -> (res: PlatformResult<AudioEncoderHandle>)
    ensures
        encoder_handle_ok(raw, res),
{
    if raw == 0 {
        Err(PlatformError::HardwareUnavailable(String::from_str("Audio encoder")))
    } else {
        Ok(AudioEncoderHandle { handle: raw })
    }
}

/// Open an audio encoder with `param` through `ffi`.
pub fn audio_encoder_open_internal<F: AudioFfiTrait>(param: &audio_param, ffi: &F) -> (res:
    PlatformResult<AudioEncoderHandle>)
    ensures
        exists|raw: usize| #[trigger] ffi.aenc_open_answer(*param, raw) && encoder_handle_ok(raw, res),
{
    let raw = ffi.aenc_open(param);
    let res = audio_encoder_handle_from_raw(raw);
    assert(ffi.aenc_open_answer(*param, raw) && encoder_handle_ok(raw, res));
    res
}

/// Open an audio encoder with `param` through the host build's backend.
pub fn audio_encoder_open(param: &audio_param) -> (res: PlatformResult<AudioEncoderHandle>)
    ensures
        res matches Ok(h) && h.handle == STUB_AUDIO_HANDLE,
{
    let raw = StubAudioFfi.aenc_open(param);
    audio_encoder_handle_from_raw(raw)
}

/// Set the encoder's attributes through `ffi`.
pub fn audio_encoder_set_config_internal<F: AudioFfiTrait>(
    handle: &AudioEncoderHandle,
    attr: &aenc_attr,
    ffi: &F,
) -> (res: PlatformResult<()>)
    ensures
        exists|ret: i32|
            #[trigger] ffi.aenc_attr_answer(handle.handle, *attr, ret) && sdk_result_ok(ret, "ak_aenc_set_attr"@, res),
{
    let ret = ffi.aenc_set_attr(handle.as_ptr(), attr);
    let res = check_result(ret, "ak_aenc_set_attr");
    assert(ffi.aenc_attr_answer(handle.handle, *attr, ret) && sdk_result_ok(ret, "ak_aenc_set_attr"@, res));
    res
}

/// Set the encoder's attributes through the host build's backend.
pub fn audio_encoder_set_config(handle: &AudioEncoderHandle, attr: &aenc_attr) -> (res: PlatformResult<()>)
    ensures
        res is Ok,
{
    let ret = StubAudioFfi.aenc_set_attr(handle.as_ptr(), attr);
    check_result(ret, "ak_aenc_set_attr")
}

/// Message of a volume above 15.
pub open spec fn msg_volume_out_of_range(volume: u8) -> Seq<char> {
    "Volume out of range: "@ + dec_nat(volume as nat) + ". Supported range is 0-15"@
}

/// The ADC and ASLC parts of a volume: the ADC takes up to 8, the ASLC the
/// rest.
pub open spec fn volume_parts(volume: u8) -> (int, int) {
    if volume >= 8 {
        (8, volume - 8)
    } else {
        (volume as int, 0)
    }
}

/// Split a volume (0..=15) into its ADC and ASLC parts.
pub fn volume_split(volume: u8) -> (res: PlatformResult<(i32, i32)>)
    ensures
        volume > 15 ==> is_invalid_parameter(res, msg_volume_out_of_range(volume)),
        volume <= 15 ==> (res matches Ok((adc, aslc)) && adc == volume_parts(volume).0
            && aslc == volume_parts(volume).1),
{
    if volume > 15 {
        let mut m = String::from_str("Volume out of range: ");
        m.append(fmt_u64(volume as u64).as_str());
        m.append(". Supported range is 0-15");
        return Err(PlatformError::InvalidParameter(m));
    }
    let adc_vol: i32 = if volume >= 8 { 8 } else { (volume % 8) as i32 };
    let aslc_vol: i32 = if volume >= 8 { (volume - 8) as i32 } else { 0 };
    Ok((adc_vol, aslc_vol))
}

/// What the statuses of the two volume calls mean for `res`: both must
/// succeed.
pub open spec fn volume_result_ok(adc_ret: i32, aslc_ret: i32, res: PlatformResult<()>) -> bool {
    &&& adc_ret == 0 && aslc_ret == 0 ==> res is Ok
    &&& !(adc_ret == 0 && aslc_ret == 0) ==> is_hardware_failure(res, "ak_ai_set_volume failed"@)
}

/// Outcome of setting both volume parts: both calls must succeed.
pub fn volume_result(adc_ret: i32, aslc_ret: i32) -> (res: PlatformResult<()>)
    ensures
        volume_result_ok(adc_ret, aslc_ret, res),
{
    if adc_ret == 0 && aslc_ret == 0 {
        Ok(())
    } else {
        Err(PlatformError::HardwareFailure(String::from_str("ak_ai_set_volume failed")))
    }
}

/// Set the input volume (0..=15) through `ffi`: its ADC part, then its
/// ASLC part; both calls must succeed.
pub fn audio_input_set_volume_internal<F: AudioFfiTrait>(handle: &AudioInputHandle, volume: u8, ffi: &F) -> (res:
    PlatformResult<()>)
    ensures
        volume > 15 ==> is_invalid_parameter(res, msg_volume_out_of_range(volume)),
        volume <= 15 ==> exists|a: i32, s: i32|
            #![trigger ffi.adc_volume_answer(handle.handle, volume_parts(volume).0 as i32, a), ffi.aslc_volume_answer(handle.handle, volume_parts(volume).1 as i32, s)]
            ffi.adc_volume_answer(handle.handle, volume_parts(volume).0 as i32, a)
                && ffi.aslc_volume_answer(handle.handle, volume_parts(volume).1 as i32, s)
                && volume_result_ok(a, s, res),
{
    let (adc_vol, aslc_vol) = match volume_split(volume) {
        Ok(parts) => parts,
        Err(e) => return Err(e),
    };
    let adc_ret = ffi.ai_set_adc_volume(handle.as_ptr(), adc_vol);
    let aslc_ret = ffi.ai_set_aslc_volume(handle.as_ptr(), aslc_vol);
    let res = volume_result(adc_ret, aslc_ret);
    assert(ffi.adc_volume_answer(handle.handle, volume_parts(volume).0 as i32, adc_ret)
        && ffi.aslc_volume_answer(handle.handle, volume_parts(volume).1 as i32, aslc_ret)
        && volume_result_ok(adc_ret, aslc_ret, res));
    res
}

/// Set the input volume (0..=15) through the host build's backend.
pub fn audio_input_set_volume(handle: &AudioInputHandle, volume: u8) -> (res: PlatformResult<()>)
    ensures
        volume > 15 ==> is_invalid_parameter(res, msg_volume_out_of_range(volume)),
        volume <= 15 ==> res is Ok,
{
    let (adc_vol, aslc_vol) = match volume_split(volume) {
        Ok(parts) => parts,
        Err(e) => return Err(e),
    };
    let adc_ret = StubAudioFfi.ai_set_adc_volume(handle.as_ptr(), adc_vol);
    let aslc_ret = StubAudioFfi.ai_set_aslc_volume(handle.as_ptr(), aslc_vol);
    volume_result(adc_ret, aslc_ret)
}

/// The two parts of a valid volume add back up to it, with the ADC part at
/// most 8 and the ASLC part at most 7.
pub proof fn lemma_volume_split_adds_up(volume: u8)
    requires
        volume <= 15,
    ensures
        volume_parts(volume).0 + volume_parts(volume).1 == volume,
        0 <= volume_parts(volume).0 <= 8,
        0 <= volume_parts(volume).1 <= 7,
{
}

} // verus!
