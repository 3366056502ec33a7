//! The SDK's PTZ calls behind a backend trait, and the handle of an opened
//! PTZ device.

use vstd::prelude::*;

use crate::hal::common::{
    check_result, failed_as_sdk_call, ptz_device, ptz_turn_direction, sdk_result_ok, AK_SUCCESS_I32,
};
use crate::platform::{is_hardware_failure, PlatformError, PlatformResult};
use crate::text::{dec_int, fmt_i64};

use super::{PtzDirection, PtzMotor};

verus! {

/// The SDK's PTZ entry points, each returning an SDK status code (the step
/// position for `ptz_get_step_pos`, negative on failure). Each `*_answer`
/// relation holds of the arguments and what a call with them may return.
/// A backend that does not define a relation allows every answer.
pub trait PtzFfiTrait {
    /// `r` is a status that opening the PTZ device may return.
    closed spec fn open_answer(&self, r: i32) -> bool {
        true
    }

    /// `r` is a status that closing the PTZ device may return.
    closed spec fn close_answer(&self, r: i32) -> bool {
        true
    }

    /// `r` is a status that a turn in `direction` by `degree` may return.
    closed spec fn turn_answer(&self, direction: ptz_turn_direction, degree: i32, r: i32) -> bool {
        true
    }

    /// `r` is a value that reading motor `motor_no`'s step position may return.
    closed spec fn step_answer(&self, motor_no: ptz_device, r: i32) -> bool {
        true
    }

    /// `r` is a status that stopping the motors may return.
    closed spec fn stop_answer(&self, r: i32) -> bool {
        true
    }

    fn ptz_open(&self) -> (r: i32)
        ensures
            self.open_answer(r),
    ;

    fn ptz_close(&self) -> (r: i32)
        ensures
            self.close_answer(r),
    ;

    fn ptz_turn(&self, direction: ptz_turn_direction, degree: i32) -> (r: i32)
        ensures
            self.turn_answer(direction, degree, r),
    ;

    fn ptz_get_step_pos(&self, motor_no: ptz_device) -> (r: i32)
        ensures
            self.step_answer(motor_no, r),
    ;

    fn ptz_stop(&self) -> (r: i32)
        ensures
            self.stop_answer(r),
    ;
}

/// The host build's PTZ backend: every call succeeds, positions read 0.
pub struct StubPtzFfi;

impl PtzFfiTrait for StubPtzFfi {
    open spec fn open_answer(&self, r: i32) -> bool {
        r == AK_SUCCESS_I32
    }

    open spec fn close_answer(&self, r: i32) -> bool {
        r == AK_SUCCESS_I32
    }

    open spec fn turn_answer(&self, direction: ptz_turn_direction, degree: i32, r: i32) -> bool {
        r == AK_SUCCESS_I32
    }

    open spec fn step_answer(&self, motor_no: ptz_device, r: i32) -> bool {
        r == 0
    }

    open spec fn stop_answer(&self, r: i32) -> bool {
        r == AK_SUCCESS_I32
    }

    fn ptz_open(&self) -> (r: i32) {
        AK_SUCCESS_I32
    }

    fn ptz_close(&self) -> (r: i32) {
        AK_SUCCESS_I32
    }

    fn ptz_turn(&self, _direction: ptz_turn_direction, _degree: i32) -> (r: i32) {
        AK_SUCCESS_I32
    }

    fn ptz_get_step_pos(&self, _motor_no: ptz_device) -> (r: i32) {
        0
    }

    fn ptz_stop(&self) -> (r: i32) {
        AK_SUCCESS_I32
    }
}

/// Handle of an opened PTZ device.
pub struct PTZHandle {
    opened: bool,
}

impl PTZHandle {
    /// Whether the device is open.
    pub closed spec fn spec_opened(&self) -> bool {
        self.opened
    }

    /// Whether the device is open.
    pub fn is_opened(&self) -> (b: bool)
        ensures
            b == self.spec_opened(),
    {
        self.opened
    }

    /// Close the device through `ffi`; a device that is not open closes
    /// without a call.
    pub fn close<F: PtzFfiTrait>(self, ffi: &F) -> (res: PlatformResult<()>)
        ensures
            !self.spec_opened() ==> res is Ok,
            self.spec_opened() ==> exists|ret: i32|
                #[trigger] ffi.close_answer(ret) && sdk_result_ok(ret, "ak_drv_ptz_close"@, res),
    {
        if self.opened {
            let ret = ffi.ptz_close();
            let res = check_result(ret, "ak_drv_ptz_close");
            assert(ffi.close_answer(ret) && sdk_result_ok(ret, "ak_drv_ptz_close"@, res));
            res
        } else {
            Ok(())
        }
    }
}

/// Open the PTZ device through `ffi`.
pub fn ptz_open_internal<F: PtzFfiTrait>(ffi: &F) -> (res: PlatformResult<PTZHandle>)
    ensures
        res matches Ok(h) ==> h.spec_opened(),
        exists|ret: i32| #[trigger] ffi.open_answer(ret) && sdk_result_ok(ret, "ak_drv_ptz_open"@, res),
{
    let ret = ffi.ptz_open();
    let res = match check_result(ret, "ak_drv_ptz_open") {
        Ok(()) => Ok(PTZHandle { opened: true }),
        Err(e) => Err(e),
    };
    assert(ffi.open_answer(ret) && sdk_result_ok(ret, "ak_drv_ptz_open"@, res));
    res
}

/// Open the PTZ device through the host build's backend.
pub fn ptz_open() -> (res: PlatformResult<PTZHandle>)
    ensures
        res matches Ok(h) && h.spec_opened(),
{
    let ret = StubPtzFfi.ptz_open();
    match check_result(ret, "ak_drv_ptz_open") {
        Ok(()) => Ok(PTZHandle { opened: true }),
        Err(e) => Err(e),
    }
}

/// The SDK device of a motor: horizontal `PTZ_DEV_H`, vertical `PTZ_DEV_V`.
pub open spec fn spec_motor_device(motor: PtzMotor) -> ptz_device {
    match motor {
        PtzMotor::Horizontal => ptz_device::PTZ_DEV_H,
        PtzMotor::Vertical => ptz_device::PTZ_DEV_V,
    }
}

fn motor_device(motor: PtzMotor) -> (d: ptz_device)
    ensures
        d == spec_motor_device(motor),
        d.spec_code() == motor.spec_device_id(),
{
    match motor {
        PtzMotor::Horizontal => ptz_device::PTZ_DEV_H,
        PtzMotor::Vertical => ptz_device::PTZ_DEV_V,
    }
}

/// The SDK turn direction of a direction (codes 1..=4: left, right, up, down).
pub open spec fn spec_turn_direction(direction: PtzDirection) -> ptz_turn_direction {
    match direction {
        PtzDirection::Left => ptz_turn_direction::PTZ_TURN_LEFT,
        PtzDirection::Right => ptz_turn_direction::PTZ_TURN_RIGHT,
        PtzDirection::Up => ptz_turn_direction::PTZ_TURN_UP,
        PtzDirection::Down => ptz_turn_direction::PTZ_TURN_DOWN,
    }
}

fn turn_direction(direction: PtzDirection) -> (d: ptz_turn_direction)
    ensures
        d == spec_turn_direction(direction),
        d.spec_code() == direction.spec_direction_code(),
{
    match direction {
        PtzDirection::Left => ptz_turn_direction::PTZ_TURN_LEFT,
        PtzDirection::Right => ptz_turn_direction::PTZ_TURN_RIGHT,
        PtzDirection::Up => ptz_turn_direction::PTZ_TURN_UP,
        PtzDirection::Down => ptz_turn_direction::PTZ_TURN_DOWN,
    }
}

/// A turn is handed to the SDK in the SDK direction whose code is the
/// direction's own code (left 1, right 2, up 3, down 4), so different
/// directions turn different ways.
pub proof fn lemma_turn_carries_the_direction_code(d: PtzDirection, e: PtzDirection)
    ensures
        spec_turn_direction(d).spec_code() == d.spec_direction_code(),
        spec_turn_direction(d) == spec_turn_direction(e) ==> d == e,
        d == PtzDirection::Right ==> spec_turn_direction(d).spec_code() == 2,
        d == PtzDirection::Left ==> spec_turn_direction(d).spec_code() == 1,
        d == PtzDirection::Up ==> spec_turn_direction(d).spec_code() == 3,
        d == PtzDirection::Down ==> spec_turn_direction(d).spec_code() == 4,
{
}

/// A motor's step position is read from the SDK device whose code is the
/// motor's own device id (horizontal 0, vertical 1), so the two motors are
/// read from different devices.
pub proof fn lemma_step_read_targets_the_motor(m: PtzMotor, n: PtzMotor)
    ensures
        spec_motor_device(m).spec_code() == m.spec_device_id(),
        spec_motor_device(m) == spec_motor_device(n) ==> m == n,
        m == PtzMotor::Horizontal ==> spec_motor_device(m).spec_code() == 0,
        m == PtzMotor::Vertical ==> spec_motor_device(m).spec_code() == 1,
{
}

/// The largest angle, in degrees either way, a turn in `direction` may ask
/// for: 180 for pan (left, right), 90 for tilt (up, down).
pub fn turn_limit_degrees(direction: PtzDirection) -> (limit: i32)
    ensures
        (direction == PtzDirection::Left || direction == PtzDirection::Right) ==> limit == 180,
        (direction == PtzDirection::Up || direction == PtzDirection::Down) ==> limit == 90,
{
    match direction {
        PtzDirection::Left | PtzDirection::Right => 180,
        PtzDirection::Up | PtzDirection::Down => 90,
    }
}

/// Turn by `degree` whole degrees (already range-checked and rounded)
/// through `ffi`, in the SDK direction of `direction`.
pub fn ptz_turn_degrees_internal<F: PtzFfiTrait>(
    _handle: &PTZHandle,
    direction: PtzDirection,
    degree: i32,
    ffi: &F,
) -> (res: PlatformResult<()>)
    ensures
        exists|ret: i32|
            #[trigger] ffi.turn_answer(spec_turn_direction(direction), degree, ret) && sdk_result_ok(
                ret,
                "ak_drv_ptz_turn"@,
                res,
            ),
        spec_turn_direction(direction).spec_code() == direction.spec_direction_code(),
{
    let ret = ffi.ptz_turn(turn_direction(direction), degree);
    let res = check_result(ret, "ak_drv_ptz_turn");
    assert(ffi.turn_answer(spec_turn_direction(direction), degree, ret) && sdk_result_ok(ret, "ak_drv_ptz_turn"@, res));
    res
}

/// Message of a failed step-position read.
pub open spec fn msg_step_pos_failed(result: i32) -> Seq<char> {
    "ak_drv_ptz_get_step_pos failed: error code "@ + dec_int(result as int)
}

/// What the SDK's step-position answer `result` means for `res`: a negative
/// value is an error code, anything else is the position.
pub open spec fn step_position_ok(result: i32, res: PlatformResult<i32>) -> bool {
    &&& result < 0 ==> is_hardware_failure(res, msg_step_pos_failed(result))
    &&& result >= 0 ==> res == Ok::<i32, PlatformError>(result)
}

/// What the SDK's step-position answer means: a negative value is an error
/// code, anything else is the position.
pub fn step_position_result(result: i32) -> (res: PlatformResult<i32>)
    ensures
        step_position_ok(result, res),
{
    if result < 0 {
        let mut m = String::from_str("ak_drv_ptz_get_step_pos failed: error code ");
        m.append(fmt_i64(result as i64).as_str());
        Err(PlatformError::HardwareFailure(m))
    } else {
        Ok(result)
    }
}

/// Read a motor's step position through `ffi`.
pub fn ptz_get_step_pos_internal<F: PtzFfiTrait>(
    _handle: &PTZHandle,
    motor: PtzMotor,
    ffi: &F,
) -> (res: PlatformResult<i32>)
    ensures
        exists|r: i32| #[trigger] ffi.step_answer(spec_motor_device(motor), r) && step_position_ok(r, res),
        spec_motor_device(motor).spec_code() == motor.spec_device_id(),
{
    let result = ffi.ptz_get_step_pos(motor_device(motor));
    let res = step_position_result(result);
    assert(ffi.step_answer(spec_motor_device(motor), result) && step_position_ok(result, res));
    res
}

/// Read a motor's step position through the host build's backend.
pub fn ptz_get_step_pos(_handle: &PTZHandle, motor: PtzMotor) -> (res: PlatformResult<i32>)
    ensures
        res == Ok::<i32, PlatformError>(0),
{
    let result = StubPtzFfi.ptz_get_step_pos(motor_device(motor));
    step_position_result(result)
}

/// Stop PTZ movement through `ffi` (the SDK stops every motor, whatever the
/// direction).
pub fn ptz_stop_internal<F: PtzFfiTrait>(
    _handle: &PTZHandle,
    _direction: PtzDirection,
    ffi: &F,
) -> (res: PlatformResult<()>)
    ensures
        exists|ret: i32| #[trigger] ffi.stop_answer(ret) && sdk_result_ok(ret, "ak_drv_ptz_stop"@, res),
{
    let ret = ffi.ptz_stop();
    let res = check_result(ret, "ak_drv_ptz_stop");
    assert(ffi.stop_answer(ret) && sdk_result_ok(ret, "ak_drv_ptz_stop"@, res));
    res
}

/// Stop PTZ movement through the host build's backend.
pub fn ptz_stop(_handle: &PTZHandle, _direction: PtzDirection) -> (res: PlatformResult<()>)
    ensures
        res is Ok,
{
    let ret = StubPtzFfi.ptz_stop();
    check_result(ret, "ak_drv_ptz_stop")
}

} // verus!
