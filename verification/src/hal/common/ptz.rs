//! The PTZ motor backend seam and the device handle opened through it.
//!
//! [`PtzHalTrait`] is implemented by the native motor driver on the camera and
//! by test doubles. Every fallible method returns a [`PlatformResult`] so the
//! driver's diagnostic (device path, errno) reaches the caller intact.

use vstd::prelude::*;

use crate::hal::common::{ptz_device, ptz_feedback_pin, ptz_turn_direction};
use crate::platform::{PlatformError, PlatformResult};

verus! {

/// Whether the kernel's own position accounting is live on a motor driver.
///
/// Some boards accept the status ioctl, report success and write nothing, so a
/// step position read back from them is a zero, not a measurement.
#[derive(Debug, Clone, Copy, Default, PartialEq, Eq, Structural)]
pub enum StepReadback {
    /// The kernel wrote plausible geometry back: step positions mean something.
    Working,
    /// The ioctl succeeded but wrote nothing: step positions are always zero.
    Unsupported,
    /// Never probed, or the probe itself failed.
    #[default]
    Unknown,
}

impl StepReadback {
    /// The pessimistic combination of two per-motor verdicts.
    pub open spec fn spec_worst_of(a: Self, b: Self) -> Self {
        if a == StepReadback::Unsupported || b == StepReadback::Unsupported {
            StepReadback::Unsupported
        } else if a == StepReadback::Unknown || b == StepReadback::Unknown {
            StepReadback::Unknown
        } else {
            StepReadback::Working
        }
    }

    /// Combine two per-motor verdicts into one for the device: if either motor
    /// cannot report its position, the pair cannot.
    pub fn worst_of(a: Self, b: Self) -> (r: Self)
        ensures
            r == Self::spec_worst_of(a, b),
    {
        match (a, b) {
            (StepReadback::Unsupported, _) | (_, StepReadback::Unsupported) => {
                StepReadback::Unsupported
            },
            (StepReadback::Unknown, _) | (_, StepReadback::Unknown) => StepReadback::Unknown,
            (StepReadback::Working, StepReadback::Working) => StepReadback::Working,
        }
    }
}

/// Combining verdicts does not depend on the order of the motors or on how
/// the combinations are grouped; `Unsupported` wins over everything, and
/// `Working` changes nothing.
pub proof fn lemma_worst_of_is_a_pessimistic_meet(a: StepReadback, b: StepReadback, c: StepReadback)
    ensures
        StepReadback::spec_worst_of(a, b) == StepReadback::spec_worst_of(b, a),
        StepReadback::spec_worst_of(StepReadback::spec_worst_of(a, b), c)
            == StepReadback::spec_worst_of(a, StepReadback::spec_worst_of(b, c)),
        StepReadback::spec_worst_of(a, a) == a,
        StepReadback::spec_worst_of(a, StepReadback::Unsupported) == StepReadback::Unsupported,
        StepReadback::spec_worst_of(a, StepReadback::Working) == a,
        StepReadback::spec_worst_of(a, b) == StepReadback::Working ==> a == StepReadback::Working
            && b == StepReadback::Working,
{
}

/// Outcome of waiting for an in-flight motor turn to finish or be interrupted.
#[derive(Debug, Clone, Copy, Default, PartialEq, Eq, Structural)]
pub struct TurnOutcome {
    /// The wait ended because the stop flag was set (preempted), not because
    /// the motor signalled completion.
    pub interrupted: bool,
    /// Motor step position read back after the turn.
    pub step_pos: i32,
    /// Raw event bitmask from the kernel's notification (0 when interrupted).
    pub event: i32,
}

/// The PTZ motor backend. Each `*_answer` relation holds of the arguments
/// and what a call with them may return.
/// A backend that does not define a relation allows every answer.
pub trait PtzHalTrait {
    /// `r` is what opening both motor devices may return.
    closed spec fn open_answer(&self, r: PlatformResult<()>) -> bool {
        true
    }

    /// `r` is what closing both motor devices may return.
    closed spec fn close_answer(&self, r: PlatformResult<()>) -> bool {
        true
    }

    /// `r` is what the calibration sweep with `pin_type` may report.
    closed spec fn check_self_answer(&self, pin_type: ptz_feedback_pin, r: PlatformResult<StepReadback>) -> bool {
        true
    }

    /// `r` is what issuing a turn in `direction` by `degree` may return.
    closed spec fn start_turn_answer(&self, direction: ptz_turn_direction, degree: i32, r: PlatformResult<bool>) -> bool {
        true
    }

    /// `r` is what waiting for the turn on `direction`'s motor may return.
    closed spec fn wait_turn_answer(&self, direction: ptz_turn_direction, r: PlatformResult<TurnOutcome>) -> bool {
        true
    }

    /// `r` is what reading motor `motor_no`'s step position may return.
    closed spec fn step_answer(&self, motor_no: ptz_device, r: PlatformResult<i32>) -> bool {
        true
    }

    /// `r` is what stopping the motor(s) for `direction` may return.
    closed spec fn stop_answer(&self, direction: ptz_turn_direction, r: PlatformResult<()>) -> bool {
        true
    }

    /// Open both motor devices.
    fn ptz_open(&self) -> (r: PlatformResult<()>)
        ensures
            self.open_answer(r),
    ;

    /// Close both motor devices.
    fn ptz_close(&self) -> (r: PlatformResult<()>)
        ensures
            self.close_answer(r),
    ;

    /// Run the calibration sweep and report whether the kernel's position
    /// accounting proved live during it.
    fn ptz_check_self(&self, pin_type: ptz_feedback_pin) -> (r: PlatformResult<StepReadback>)
        ensures
            self.check_self_answer(pin_type, r),
    ;

    /// Issue a turn without waiting; `Ok(false)` when it rounds to zero steps.
    fn ptz_start_turn(&self, direction: ptz_turn_direction, degree: i32) -> (r: PlatformResult<bool>)
        ensures
            self.start_turn_answer(direction, degree, r),
    ;

    /// Block until the turn on `direction`'s motor completes or is interrupted.
    fn ptz_wait_turn(&self, direction: ptz_turn_direction) -> (r: PlatformResult<TurnOutcome>)
        ensures
            self.wait_turn_answer(direction, r),
    ;

    /// Step position of one motor.
    fn ptz_get_step_pos(&self, motor_no: ptz_device) -> (r: PlatformResult<i32>)
        ensures
            self.step_answer(motor_no, r),
    ;

    /// Stop the motor(s) for `direction`.
    fn ptz_stop(&self, direction: ptz_turn_direction) -> (r: PlatformResult<()>)
        ensures
            self.stop_answer(direction, r),
    ;

    /// Set the interrupt flag so that an in-flight turn returns promptly.
    fn ptz_interrupt(&self);
}

/// Handle of an opened PTZ device, with what its calibration sweep found.
pub struct PTZHandle<F: PtzHalTrait> {
    opened: bool,
    ffi: F,
    self_check_error: Option<String>,
    step_readback: StepReadback,
}

impl<F: PtzHalTrait> PTZHandle<F> {
    /// Whether the device is open.
    pub closed spec fn spec_opened(&self) -> bool {
        self.opened
    }

    /// The calibration failure's message, `None` when the sweep succeeded.
    pub closed spec fn spec_self_check_error(&self) -> Option<Seq<char>> {
        match self.self_check_error {
            Some(m) => Some(m@),
            None => None,
        }
    }

    /// The step readback verdict recorded at open.
    pub closed spec fn spec_step_readback(&self) -> StepReadback {
        self.step_readback
    }

    /// The backend the device was opened with.
    pub closed spec fn backend(&self) -> F {
        self.ffi
    }

    /// Whether the device is open.
    pub fn is_opened(&self) -> (b: bool)
        ensures
            b == self.spec_opened(),
    {
        self.opened
    }

    /// Why the calibration sweep failed, or `None` if it succeeded.
    pub fn self_check_error(&self) -> (e: Option<&str>)
        ensures
            opt_view(e) == self.spec_self_check_error(),
    {
        match &self.self_check_error {
            Some(m) => Some(m.as_str()),
            None => None,
        }
    }

    /// Whether motor step positions from this device are measurements or always zero.
    pub fn step_readback(&self) -> (r: StepReadback)
        ensures
            r == self.spec_step_readback(),
    {
        self.step_readback
    }

    /// Close the device through the backend it was opened with; a device
    /// that is not open closes with nothing to do.
    pub fn close(self) -> (res: PlatformResult<()>)
        ensures
            !self.spec_opened() ==> res is Ok,
            self.spec_opened() ==> self.backend().close_answer(res),
    {
        if self.opened {
            self.ffi.ptz_close()
        } else {
            Ok(())
        }
    }
}

/// The view of an optional string.
pub open spec fn opt_view(e: Option<&str>) -> Option<Seq<char>> {
    match e {
        Some(s) => Some(s@),
        None => None,
    }
}

/// What the handle records from the calibration sweep's outcome: a failure's
/// displayed text with an `Unknown` readback (the sweep never reached its probe), or
/// no error and the verdict the sweep reported.
pub open spec fn records_self_check(
    check: PlatformResult<StepReadback>,
    error: Option<Seq<char>>,
    readback: StepReadback,
) -> bool {
    match check {
        Ok(rb) => error is None && readback == rb,
        Err(e) => error == Some(e.spec_display()) && readback == StepReadback::Unknown,
    }
}

/// Build the handle of a device that opened, given the calibration sweep's outcome.
///
/// A sweep failure is not fatal: the devices are open and relative moves
/// still work, they are just not referenced to a known origin.
pub fn finish_open<F: PtzHalTrait>(ffi: F, check: PlatformResult<StepReadback>) -> (h: PTZHandle<F>)
    ensures
        h.spec_opened(),
        h.backend() == ffi,
        records_self_check(check, h.spec_self_check_error(), h.spec_step_readback()),
{
    let (self_check_error, step_readback) = match check {
        Ok(readback) => (None, readback),
        Err(e) => (Some(e.display_text()), StepReadback::Unknown),
    };
    PTZHandle { opened: true, ffi, self_check_error, step_readback }
}

/// Open the motor devices and run the calibration sweep (the board has no
/// feedback pin, so the sweep is asked for `PTZ_FEEDBACK_PIN_NONE`).
///
/// An open failure is returned as the backend reported it; a sweep failure
/// only leaves its message on the handle.
pub fn ptz_open<F: PtzHalTrait>(ffi: F) -> (res: PlatformResult<PTZHandle<F>>)
    ensures
        exists|opened: PlatformResult<()>|
            #[trigger] ffi.open_answer(opened) && (opened matches Err(e) ==> (res matches Err(e2) && e2 == e)) && (
            opened is Ok ==> (res matches Ok(h) && h.spec_opened() && h.backend() == ffi && exists|
                check: PlatformResult<StepReadback>,
            |
                #[trigger] ffi.check_self_answer(ptz_feedback_pin::PTZ_FEEDBACK_PIN_NONE, check)
                    && records_self_check(check, h.spec_self_check_error(), h.spec_step_readback()))),
{
    let opened = ffi.ptz_open();
    match opened {
        Ok(()) => {},
        Err(e) => {
            assert(ffi.open_answer(opened));
            return Err(e);
        },
    }
    let ghost backend = ffi;
    let check = ffi.ptz_check_self(ptz_feedback_pin::PTZ_FEEDBACK_PIN_NONE);
    let h = finish_open(ffi, check);
    assert(backend.check_self_answer(ptz_feedback_pin::PTZ_FEEDBACK_PIN_NONE, check)
        && records_self_check(check, h.spec_self_check_error(), h.spec_step_readback()));
    assert(backend.open_answer(opened));
    Ok(h)
}

} // verus!
