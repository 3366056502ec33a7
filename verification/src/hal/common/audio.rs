//! Audio input and audio encoder handling above the HAL's audio backend (the
//! vendor daemon in production). Handles are addresses, 0 standing for NULL.

use vstd::prelude::*;

use crate::ffi::audio::{
    audio_encoder_handle_from_raw, audio_input_handle_from_raw, encoder_handle_ok, input_handle_ok,
    msg_volume_out_of_range, volume_parts, volume_result, volume_result_ok, volume_split,
};
use crate::hal::common::{aenc_attr, audio_param, check_result, pcm_param, sdk_result_ok};
use crate::platform::{is_hardware_failure, is_hardware_unavailable, is_invalid_parameter, PlatformResult};

pub use crate::ffi::audio::{AudioEncoderHandle, AudioInputHandle};

verus! {

/// The HAL's audio backend. Handles are addresses (0 is NULL); the others
/// return an SDK status code, or a result for the push controls, which
/// carry no handle: the daemon owns the whole capture and encode chain.
/// Each `*_answer` relation holds of the arguments and what a call with them
/// may return.
/// A backend that does not define a relation allows every answer.
pub trait AudioHalTrait {
    /// `h` is an address that opening the input with `param` may return (0 is NULL).
    closed spec fn ai_open_answer(&self, param: pcm_param, h: usize) -> bool {
        true
    }

    /// `r` is a status that closing input `handle` may return.
    closed spec fn ai_close_answer(&self, handle: usize, r: i32) -> bool {
        true
    }

    /// `r` is a status that setting input `handle`'s ADC volume to `vol` may return.
    closed spec fn adc_volume_answer(&self, handle: usize, vol: i32, r: i32) -> bool {
        true
    }

    /// `r` is a status that setting input `handle`'s ASLC volume to `vol` may return.
    closed spec fn aslc_volume_answer(&self, handle: usize, vol: i32, r: i32) -> bool {
        true
    }

    /// `h` is an address that opening an encoder with `param` may return (0 is NULL).
    closed spec fn aenc_open_answer(&self, param: audio_param, h: usize) -> bool {
        true
    }

    /// `r` is a status that closing encoder `handle` may return.
    closed spec fn aenc_close_answer(&self, handle: usize, r: i32) -> bool {
        true
    }

    /// `r` is a status that setting encoder `enc_handle`'s attributes to `attr` may return.
    closed spec fn aenc_attr_answer(&self, enc_handle: usize, attr: aenc_attr, r: i32) -> bool {
        true
    }

    /// `r` is what starting audio push at `sample_rate` with `channels` may return.
    closed spec fn start_push_answer(&self, sample_rate: u32, channels: u32, r: PlatformResult<()>) -> bool {
        true
    }

    /// `r` is what stopping audio push may return.
    closed spec fn stop_push_answer(&self, r: PlatformResult<()>) -> bool {
        true
    }

    fn ai_open(&self, param: &pcm_param) -> (h: usize)
        ensures
            self.ai_open_answer(*param, h),
    ;

    fn ai_close(&self, handle: usize) -> (r: i32)
        ensures
            self.ai_close_answer(handle, r),
    ;

    fn ai_set_adc_volume(&self, handle: usize, vol: i32) -> (r: i32)
        ensures
            self.adc_volume_answer(handle, vol, r),
    ;

    fn ai_set_aslc_volume(&self, handle: usize, vol: i32) -> (r: i32)
        ensures
            self.aslc_volume_answer(handle, vol, r),
    ;

    fn aenc_open(&self, param: &audio_param) -> (h: usize)
        ensures
            self.aenc_open_answer(*param, h),
    ;

    fn aenc_close(&self, handle: usize) -> (r: i32)
        ensures
            self.aenc_close_answer(handle, r),
    ;

    fn aenc_set_attr(&self, enc_handle: usize, attr: &aenc_attr) -> (r: i32)
        ensures
            self.aenc_attr_answer(enc_handle, *attr, r),
    ;

    fn start_audio_push(&self, sample_rate: u32, channels: u32) -> (r: PlatformResult<()>)
        ensures
            self.start_push_answer(sample_rate, channels, r),
    ;

    fn stop_audio_push(&self) -> (r: PlatformResult<()>)
        ensures
            self.stop_push_answer(r),
    ;
}

/// Open the audio input with `param`.
pub fn audio_input_open<F: AudioHalTrait>(param: &pcm_param, ffi: &F) -> (res: PlatformResult<AudioInputHandle>)
    ensures
        exists|raw: usize| #[trigger] ffi.ai_open_answer(*param, raw) && input_handle_ok(raw, res),
{
    let raw = ffi.ai_open(param);
    let res = audio_input_handle_from_raw(raw);
    assert(ffi.ai_open_answer(*param, raw) && input_handle_ok(raw, res));
    res
}

/// Set the input volume (0..=15): its ADC part, then its ASLC part; both
/// calls must succeed.
pub fn audio_input_set_volume<F: AudioHalTrait>(handle: &AudioInputHandle, volume: u8, ffi: &F) -> (res:
    PlatformResult<()>)
    ensures
        volume > 15 ==> is_invalid_parameter(res, msg_volume_out_of_range(volume)),
        volume <= 15 ==> exists|a: i32, s: i32|
            #![trigger ffi.adc_volume_answer(handle.handle, volume_parts(volume).0 as i32, a), ffi.aslc_volume_answer(handle.handle, volume_parts(volume).1 as i32, s)]
            ffi.adc_volume_answer(handle.handle, volume_parts(volume).0 as i32, a)
                && ffi.aslc_volume_answer(handle.handle, volume_parts(volume).1 as i32, s)
                && volume_result_ok(a, s, res),
{
    let (adc_vol, aslc_vol) = match volume_split(volume) {
        Ok(parts) => parts,
        Err(e) => return Err(e),
    };
    let adc_ret = ffi.ai_set_adc_volume(handle.as_ptr(), adc_vol);
    let aslc_ret = ffi.ai_set_aslc_volume(handle.as_ptr(), aslc_vol);
    let res = volume_result(adc_ret, aslc_ret);
    assert(ffi.adc_volume_answer(handle.handle, volume_parts(volume).0 as i32, adc_ret)
        && ffi.aslc_volume_answer(handle.handle, volume_parts(volume).1 as i32, aslc_ret)
        && volume_result_ok(adc_ret, aslc_ret, res));
    res
}

/// Open an audio encoder with `param`.
pub fn audio_encoder_open<F: AudioHalTrait>(param: &audio_param, ffi: &F) -> (res: PlatformResult<
    AudioEncoderHandle,
>)
    ensures
        exists|raw: usize| #[trigger] ffi.aenc_open_answer(*param, raw) && encoder_handle_ok(raw, res),
{
    let raw = ffi.aenc_open(param);
    let res = audio_encoder_handle_from_raw(raw);
    assert(ffi.aenc_open_answer(*param, raw) && encoder_handle_ok(raw, res));
    res
}

/// Set the encoder's attributes.
pub fn audio_encoder_set_config<F: AudioHalTrait>(handle: &AudioEncoderHandle, attr: &aenc_attr, ffi: &F) -> (res:
    PlatformResult<()>)
    ensures
        exists|ret: i32|
            #[trigger] ffi.aenc_attr_answer(handle.handle, *attr, ret) && sdk_result_ok(ret, "ak_aenc_set_attr"@, res),
{
    let ret = ffi.aenc_set_attr(handle.as_ptr(), attr);
    let res = check_result(ret, "ak_aenc_set_attr");
    assert(ffi.aenc_attr_answer(handle.handle, *attr, ret) && sdk_result_ok(ret, "ak_aenc_set_attr"@, res));
    res
}

} // verus!
