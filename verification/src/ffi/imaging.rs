//! The SDK's ISP switches (IR cut filter, wide dynamic range) behind a
//! backend trait.

use vstd::prelude::*;

use crate::hal::common::{check_result, sdk_result_ok, AK_SUCCESS_I32};
use crate::platform::PlatformResult;

verus! {

/// The SDK's ISP entry points, each returning an SDK status code. Each
/// `*_answer` relation holds of the arguments and the status that a call
/// with them may return.
/// A backend that does not define a relation allows every answer.
pub trait ImagingFfiTrait {
    /// `r` is a status that setting the brightness `value` may return.
    closed spec fn brightness_answer(&self, value: i32, r: i32) -> bool {
        true
    }

    /// `r` is a status that setting the contrast `value` may return.
    closed spec fn contrast_answer(&self, value: i32, r: i32) -> bool {
        true
    }

    /// `r` is a status that setting the saturation `value` may return.
    closed spec fn saturation_answer(&self, value: i32, r: i32) -> bool {
        true
    }

    /// `r` is a status that setting the sharpness `value` may return.
    closed spec fn sharpness_answer(&self, value: i32, r: i32) -> bool {
        true
    }

    /// `r` is a status that setting switching the IR cut filter to `enabled` may return.
    closed spec fn ir_filter_answer(&self, enabled: bool, r: i32) -> bool {
        true
    }

    /// `r` is a status that setting switching wide dynamic range to `enabled` may return.
    closed spec fn wdr_answer(&self, enabled: bool, r: i32) -> bool {
        true
    }

    fn set_brightness(&self, value: i32) -> (r: i32)
        ensures
            self.brightness_answer(value, r),
    ;

    fn set_contrast(&self, value: i32) -> (r: i32)
        ensures
            self.contrast_answer(value, r),
    ;

    fn set_saturation(&self, value: i32) -> (r: i32)
        ensures
            self.saturation_answer(value, r),
    ;

    fn set_sharpness(&self, value: i32) -> (r: i32)
        ensures
            self.sharpness_answer(value, r),
    ;

    fn set_ir_filter(&self, enabled: bool) -> (r: i32)
        ensures
            self.ir_filter_answer(enabled, r),
    ;

    fn set_wdr(&self, enabled: bool) -> (r: i32)
        ensures
            self.wdr_answer(enabled, r),
    ;
}

/// The host build's ISP backend: every call succeeds.
pub struct StubImagingFfi;

impl ImagingFfiTrait for StubImagingFfi {
    open spec fn brightness_answer(&self, value: i32, r: i32) -> bool {
        r == AK_SUCCESS_I32
    }

    open spec fn contrast_answer(&self, value: i32, r: i32) -> bool {
        r == AK_SUCCESS_I32
    }

    open spec fn saturation_answer(&self, value: i32, r: i32) -> bool {
        r == AK_SUCCESS_I32
    }

    open spec fn sharpness_answer(&self, value: i32, r: i32) -> bool {
        r == AK_SUCCESS_I32
    }

    open spec fn ir_filter_answer(&self, enabled: bool, r: i32) -> bool {
        r == AK_SUCCESS_I32
    }

    open spec fn wdr_answer(&self, enabled: bool, r: i32) -> bool {
        r == AK_SUCCESS_I32
    }

    fn set_brightness(&self, _value: i32) -> (r: i32)
        ensures
            r == AK_SUCCESS_I32,
    {
        AK_SUCCESS_I32
    }

    fn set_contrast(&self, _value: i32) -> (r: i32)
        ensures
            r == AK_SUCCESS_I32,
    {
        AK_SUCCESS_I32
    }

    fn set_saturation(&self, _value: i32) -> (r: i32)
        ensures
            r == AK_SUCCESS_I32,
    {
        AK_SUCCESS_I32
    }

    fn set_sharpness(&self, _value: i32) -> (r: i32)
        ensures
            r == AK_SUCCESS_I32,
    {
        AK_SUCCESS_I32
    }

    fn set_ir_filter(&self, _enabled: bool) -> (r: i32)
        ensures
            r == AK_SUCCESS_I32,
    {
        AK_SUCCESS_I32
    }

    fn set_wdr(&self, _enabled: bool) -> (r: i32)
        ensures
            r == AK_SUCCESS_I32,
    {
        AK_SUCCESS_I32
    }
}

/// Switch the IR cut filter through `ffi`.
pub fn imaging_set_ir_filter_internal<F: ImagingFfiTrait>(enabled: bool, ffi: &F) -> (res:
    PlatformResult<()>)
    ensures
        exists|ret: i32| #[trigger] ffi.ir_filter_answer(enabled, ret) && sdk_result_ok(ret, "imaging_set_ir_filter"@, res),
{
    let ret = ffi.set_ir_filter(enabled);
    let res = check_result(ret, "imaging_set_ir_filter");
    assert(ffi.ir_filter_answer(enabled, ret) && sdk_result_ok(ret, "imaging_set_ir_filter"@, res));
    res
}

/// Switch the IR cut filter through the host build's backend.
pub fn imaging_set_ir_filter(enabled: bool) -> (res: PlatformResult<()>)
    ensures
        res is Ok,
{
    let ret = StubImagingFfi.set_ir_filter(enabled);
    check_result(ret, "imaging_set_ir_filter")
}

/// Switch wide dynamic range through `ffi`.
pub fn imaging_set_wdr_internal<F: ImagingFfiTrait>(enabled: bool, ffi: &F) -> (res:
    PlatformResult<()>)
    ensures
        exists|ret: i32| #[trigger] ffi.wdr_answer(enabled, ret) && sdk_result_ok(ret, "imaging_set_wdr"@, res),
{
    let ret = ffi.set_wdr(enabled);
    let res = check_result(ret, "imaging_set_wdr");
    assert(ffi.wdr_answer(enabled, ret) && sdk_result_ok(ret, "imaging_set_wdr"@, res));
    res
}

/// Switch wide dynamic range through the host build's backend.
pub fn imaging_set_wdr(enabled: bool) -> (res: PlatformResult<()>)
    ensures
        res is Ok,
{
    let ret = StubImagingFfi.set_wdr(enabled);
    check_result(ret, "imaging_set_wdr")
}

} // verus!
