//! Decisions of the native PTZ driver for the kernel motor devices
//! (`/dev/ak-motor0` horizontal, `/dev/ak-motor1` vertical).
//!
//! The ioctl command words, the motor geometry seeded into the kernel and
//! adopted back from it, which motor and sense a direction turns, how many
//! steps a turn takes, what a stop stops, and what a wait for the motor does
//! on each poll. The file descriptors and the ioctl calls stay with the caller.

use vstd::prelude::*;

use crate::hal::common::ptz::TurnOutcome;
use crate::hal::common::{PtzDevice, PtzFeedbackPin, PtzTurnDirection};
use crate::platform::{is_hardware_unavailable, is_invalid_parameter, PlatformError, PlatformResult};

pub use crate::hal::common::{ptz_device, ptz_feedback_pin, ptz_turn_direction};

verus! {

// ----------------------------------------------------------------------------
// Kernel ABI
// ----------------------------------------------------------------------------

/// ioctl type byte of the motor driver (`'m'`).
pub const AK_MOTOR_IOC_MAGIC: u32 = 0x6d;
/// Size field of the `int`-argument ioctls.
pub const SIZE_INT: u32 = 4;

/// `_IOW('m', 11, int)`.
pub const AK_MOTOR_SET_ANG_SPEED: u32 = 0x4004_6D0B;
/// `_IOR('m', 12, int)`.
pub const AK_MOTOR_GET_ANG_SPEED: u32 = 0x8004_6D0C;
/// `_IOW('m', 13, int)`.
pub const AK_MOTOR_TURN_CLKWISE: u32 = 0x4004_6D0D;
/// `_IOW('m', 14, int)`.
pub const AK_MOTOR_TURN_ANTICLKWISE: u32 = 0x4004_6D0E;
/// `_IOW('m', 15, int)`.
pub const AK_MOTOR_GET_HIT_STATUS: u32 = 0x4004_6D0F;
/// `_IOW('m', 16, int)`.
pub const AK_MOTOR_TURN_STOP: u32 = 0x4004_6D10;
/// `_IOW('m', 0x00, int)`: the vendor declares it with an `int` size although
/// it carries a struct pointer, and the size is part of the command word.
pub const MOTOR_PARM: u32 = 0x4004_6D00;
/// `_IOW('m', 0x43, int)`, declared like [`MOTOR_PARM`].
pub const MOTOR_GET_STATUS: u32 = 0x4004_6D43;

/// Motor hit a limit.
pub const AK_MOTOR_EVENT_HIT: i32 = 1;
/// Motor left a limit.
pub const AK_MOTOR_EVENT_UNHIT: i32 = 1 << 1;
/// Motor stopped.
pub const AK_MOTOR_EVENT_STOP: i32 = 1 << 2;

pub const AK_MOTOR_MIN_SPEED: i32 = 1;
pub const AK_MOTOR_MAX_SPEED: i32 = 200;

/// Steps per revolution assumed until the kernel reports its own.
pub const CYCLE_STEP: i32 = 2048;
/// Steps from a limit back to the middle when the kernel reports no travel.
pub const RESET_STEP: i32 = 1024;
/// Angular speed set after open and before calibration.
pub const DEFAULT_SPEED: i32 = 100;
/// `motor_parm.speed_step` seed, as the vendor's setup uses.
pub const DEFAULT_SPEED_STEP: i32 = 400;
/// Total pan travel in degrees.
pub const PAN_TRAVEL_DEGREES: i32 = 700;
/// Total tilt travel in degrees.
pub const TILT_TRAVEL_DEGREES: i32 = 260;
/// Timeout of the calibration move to a limit, in seconds.
pub const CALIBRATION_TIMEOUT_SECS: u64 = 120;
/// Timeout of a single turn, in seconds.
pub const TURN_TIMEOUT_SECS: u64 = 60;
/// Poll cadence of the interruptible wait, in milliseconds.
pub const WAIT_POLL_MS: i64 = 100;

/// `_IOW(type, nr, size)`: direction bit 1 at bit 30, the type byte at bits
/// 8..16, the number at bits 0..8 and the size from bit 16.
pub open spec fn spec_iow(type_: u32, nr: u32, size: u32) -> u32 {
    (1u32 << 30u32) | ((type_ << 8u32) & 0xff00u32) | nr | (size << 16u32)
}

/// `_IOR(type, nr, size)`: as [`spec_iow`] with direction bit 2.
pub open spec fn spec_ior(type_: u32, nr: u32, size: u32) -> u32 {
    (2u32 << 30u32) | ((type_ << 8u32) & 0xff00u32) | nr | (size << 16u32)
}

/// Encode a write-direction ioctl command word.
pub fn iow(type_: u32, nr: u32, size: u32) -> (c: u32)
    ensures
        c == spec_iow(type_, nr, size),
{
    (1u32 << 30u32) | ((type_ << 8u32) & 0xff00u32) | nr | (size << 16u32)
}

/// Encode a read-direction ioctl command word.
pub fn ior(type_: u32, nr: u32, size: u32) -> (c: u32)
    ensures
        c == spec_ior(type_, nr, size),
{
    (2u32 << 30u32) | ((type_ << 8u32) & 0xff00u32) | nr | (size << 16u32)
}

/// The command words above are exactly the vendor driver's encodings.
pub proof fn lemma_command_words_match_the_vendor_encoding()
    ensures
        AK_MOTOR_SET_ANG_SPEED == spec_iow(AK_MOTOR_IOC_MAGIC, 11, SIZE_INT),
        AK_MOTOR_GET_ANG_SPEED == spec_ior(AK_MOTOR_IOC_MAGIC, 12, SIZE_INT),
        AK_MOTOR_TURN_CLKWISE == spec_iow(AK_MOTOR_IOC_MAGIC, 13, SIZE_INT),
        AK_MOTOR_TURN_ANTICLKWISE == spec_iow(AK_MOTOR_IOC_MAGIC, 14, SIZE_INT),
        AK_MOTOR_GET_HIT_STATUS == spec_iow(AK_MOTOR_IOC_MAGIC, 15, SIZE_INT),
        AK_MOTOR_TURN_STOP == spec_iow(AK_MOTOR_IOC_MAGIC, 16, SIZE_INT),
        MOTOR_PARM == spec_iow(AK_MOTOR_IOC_MAGIC, 0x00, SIZE_INT),
        MOTOR_GET_STATUS == spec_iow(AK_MOTOR_IOC_MAGIC, 0x43, SIZE_INT),
{
    assert(0x4004_6D0Bu32 == (1u32 << 30u32) | ((0x6du32 << 8u32) & 0xff00u32) | 11u32 | (4u32
        << 16u32)) by (bit_vector);
    assert(0x8004_6D0Cu32 == (2u32 << 30u32) | ((0x6du32 << 8u32) & 0xff00u32) | 12u32 | (4u32
        << 16u32)) by (bit_vector);
    assert(0x4004_6D0Du32 == (1u32 << 30u32) | ((0x6du32 << 8u32) & 0xff00u32) | 13u32 | (4u32
        << 16u32)) by (bit_vector);
    assert(0x4004_6D0Eu32 == (1u32 << 30u32) | ((0x6du32 << 8u32) & 0xff00u32) | 14u32 | (4u32
        << 16u32)) by (bit_vector);
    assert(0x4004_6D0Fu32 == (1u32 << 30u32) | ((0x6du32 << 8u32) & 0xff00u32) | 15u32 | (4u32
        << 16u32)) by (bit_vector);
    assert(0x4004_6D10u32 == (1u32 << 30u32) | ((0x6du32 << 8u32) & 0xff00u32) | 16u32 | (4u32
        << 16u32)) by (bit_vector);
    assert(0x4004_6D00u32 == (1u32 << 30u32) | ((0x6du32 << 8u32) & 0xff00u32) | 0u32 | (4u32
        << 16u32)) by (bit_vector);
    assert(0x4004_6D43u32 == (1u32 << 30u32) | ((0x6du32 << 8u32) & 0xff00u32) | 0x43u32 | (4u32
        << 16u32)) by (bit_vector);
}

/// `notify_data` read from a motor device.
#[derive(Debug, Clone, Copy, Default)]
pub struct NotifyData {
    pub hit_num: i32,
    pub event: i32,
    pub remain_steps: i32,
}

/// `motor_parm`, the argument of [`MOTOR_PARM`] (field order matters).
#[derive(Debug, Clone, Copy, Default)]
pub struct MotorParm {
    pub pos: i32,
    pub speed_step: i32,
    pub steps_one_circle: i32,
    pub total_steps: i32,
    pub boundary_steps: i32,
}

/// `motor_message`, filled by [`MOTOR_GET_STATUS`].
#[derive(Debug, Clone, Copy, Default)]
pub struct MotorMessage {
    pub status: i32,
    pub pos: i32,
    pub speed_step: i32,
    pub speed_angle: i32,
    pub steps_one_circle: i32,
    pub total_steps: i32,
    pub boundary_steps: i32,
    pub attach_timer: i32,
}

// ----------------------------------------------------------------------------
// Geometry
// ----------------------------------------------------------------------------

/// Integer division rounding toward zero, as Rust's `/` does (`b > 0`).
pub open spec fn trunc_div(a: int, b: int) -> int {
    if a >= 0 {
        a / b
    } else {
        -((-a) / b)
    }
}

fn trunc_div_i64(a: i64, b: i64) -> (q: i64)
    requires
        b > 0,
        a > i64::MIN,
    ensures
        q == trunc_div(a as int, b as int),
{
    if a >= 0 {
        a / b
    } else {
        let n = -a;
        -(n / b)
    }
}

/// The seed written with [`MOTOR_PARM`] for an axis of `travel_degrees`: the
/// travel as steps (`2048 * travel / 360`), the middle as position, the
/// vendor's step speed, 2048 steps per revolution, no boundary.
pub open spec fn spec_motor_parm(travel_degrees: int) -> MotorParm {
    let total = trunc_div(2048 * travel_degrees, 360);
    MotorParm {
        pos: trunc_div(total, 2) as i32,
        speed_step: 400,
        steps_one_circle: 2048,
        total_steps: total as i32,
        boundary_steps: 0,
    }
}

/// The [`MOTOR_PARM`] seed for an axis of `travel_degrees`.
pub fn motor_parm_for_travel(travel_degrees: i32) -> (p: MotorParm)
    requires
        -1048576 <= travel_degrees <= 1048575,
    ensures
        p == spec_motor_parm(travel_degrees as int),
{
    let cycle: i64 = CYCLE_STEP as i64;
    assert(cycle == 2048);
    let product: i64 = cycle * travel_degrees as i64;
    let total_steps = trunc_div_i64(product, 360) as i32;
    let pos = trunc_div_i64(total_steps as i64, 2) as i32;
    MotorParm {
        pos,
        speed_step: DEFAULT_SPEED_STEP,
        steps_one_circle: CYCLE_STEP,
        total_steps,
        boundary_steps: 0,
    }
}

/// Step geometry of one motor: steps per revolution and usable travel.
#[derive(Debug, Clone, Copy, PartialEq, Eq, Structural)]
pub struct MotorGeometry {
    /// Steps per full revolution.
    pub cycle_step: i32,
    /// Usable travel in steps (0 when the kernel reported none).
    pub total_steps: i32,
}

impl MotorGeometry {
    /// The geometry assumed before the kernel is asked.
    pub fn new() -> (g: Self)
        ensures
            g.cycle_step == CYCLE_STEP,
            g.total_steps == 0,
    {
        MotorGeometry { cycle_step: CYCLE_STEP, total_steps: 0 }
    }

    /// Adopt the kernel's own accounting where it reports any: a positive
    /// steps-per-revolution and a positive travel replace the seed values.
    pub fn adopt_status(&mut self, msg: &MotorMessage)
        ensures
            final(self).cycle_step == if msg.steps_one_circle > 0 {
                msg.steps_one_circle
            } else {
                old(self).cycle_step
            },
            final(self).total_steps == if msg.total_steps > 0 {
                msg.total_steps
            } else {
                old(self).total_steps
            },
    {
        if msg.steps_one_circle > 0 {
            self.cycle_step = msg.steps_one_circle;
        }
        if msg.total_steps > 0 {
            self.total_steps = msg.total_steps;
        }
    }

    /// Steps for a turn of `degree` degrees: `cycle_step * degree / 360`,
    /// rounded toward zero and truncated to 32 bits.
    pub fn degree_to_steps(&self, degree: i32) -> (s: i32)
        ensures
            s == trunc_div(self.cycle_step * degree, 360) as i32,
    {
        let c = self.cycle_step;
        assert(-0x4000_0000_0000_0000 <= (c as int) * (degree as int) <= 0x4000_0000_0000_0000)
            by (nonlinear_arith)
            requires
                -0x8000_0000 <= c <= 0x7fff_ffff,
                -0x8000_0000 <= degree <= 0x7fff_ffff,
        ;
        let product: i64 = c as i64 * degree as i64;
        #[verifier::truncate]
        (trunc_div_i64(product, 360) as i32)
    }

    /// Steps from a limit back to the middle of travel: half the travel, or
    /// half a revolution when the kernel reported no travel.
    pub fn reset_step(&self) -> (s: i32)
        ensures
            self.total_steps > 0 ==> s == self.total_steps / 2,
            self.total_steps <= 0 ==> s == RESET_STEP,
    {
        if self.total_steps > 0 {
            self.total_steps / 2
        } else {
            RESET_STEP
        }
    }
}

// ----------------------------------------------------------------------------
// Motor selection
// ----------------------------------------------------------------------------

/// Message of an operation on a closed device.
pub open spec fn msg_not_opened() -> Seq<char> {
    "PTZ device not opened"@
}

/// Message of a turn in the reserved direction.
pub open spec fn msg_reserved_direction() -> Seq<char> {
    "PTZ_TURN_RESERVED not valid for turn"@
}

/// The motor a direction turns and whether it turns clockwise: left is the
/// horizontal motor anticlockwise, right clockwise; up is the vertical motor
/// clockwise, down anticlockwise.
pub open spec fn spec_motor_for(direction: PtzTurnDirection) -> Option<(PtzDevice, bool)> {
    match direction {
        PtzTurnDirection::PTZ_TURN_LEFT => Some((PtzDevice::PTZ_DEV_H, false)),
        PtzTurnDirection::PTZ_TURN_RIGHT => Some((PtzDevice::PTZ_DEV_H, true)),
        PtzTurnDirection::PTZ_TURN_UP => Some((PtzDevice::PTZ_DEV_V, true)),
        PtzTurnDirection::PTZ_TURN_DOWN => Some((PtzDevice::PTZ_DEV_V, false)),
        PtzTurnDirection::PTZ_TURN_RESERVED => None,
    }
}

/// Select the motor and sense for a turn; a closed device is reported before
/// the direction is looked at.
pub fn motor_for(opened: bool, direction: PtzTurnDirection) -> (res: PlatformResult<(PtzDevice, bool)>)
    ensures
        !opened ==> is_hardware_unavailable(res, msg_not_opened()),
        opened && spec_motor_for(direction) is None ==> is_invalid_parameter(
            res,
            msg_reserved_direction(),
        ),
        opened ==> (spec_motor_for(direction) matches Some(m) ==> res == Ok::<
            (PtzDevice, bool),
            PlatformError,
        >(m)),
{
    if !opened {
        return Err(PlatformError::HardwareUnavailable(String::from_str("PTZ device not opened")));
    }
    match direction {
        PtzTurnDirection::PTZ_TURN_LEFT => Ok((PtzDevice::PTZ_DEV_H, false)),
        PtzTurnDirection::PTZ_TURN_RIGHT => Ok((PtzDevice::PTZ_DEV_H, true)),
        PtzTurnDirection::PTZ_TURN_UP => Ok((PtzDevice::PTZ_DEV_V, true)),
        PtzTurnDirection::PTZ_TURN_DOWN => Ok((PtzDevice::PTZ_DEV_V, false)),
        PtzTurnDirection::PTZ_TURN_RESERVED => Err(
            PlatformError::InvalidParameter(
                String::from_str("PTZ_TURN_RESERVED not valid for turn"),
            ),
        ),
    }
}

/// A turn to issue: which motor, which sense, how many steps.
#[derive(Debug, Clone, Copy, PartialEq, Eq, Structural)]
pub struct TurnPlan {
    pub motor: PtzDevice,
    pub clockwise: bool,
    pub steps: i32,
}

/// Plan a turn of `degree` degrees in `direction` on the open motors
/// (`None`: the device is closed). `Ok(None)`: the move rounds to zero or
/// fewer steps and no turn is issued.
pub fn plan_turn(
    motors: &Option<(MotorGeometry, MotorGeometry)>,
    direction: PtzTurnDirection,
    degree: i32,
) -> (res: PlatformResult<Option<TurnPlan>>)
    ensures
        motors is None ==> is_hardware_unavailable(res, msg_not_opened()),
        motors is Some && spec_motor_for(direction) is None ==> is_invalid_parameter(
            res,
            msg_reserved_direction(),
        ),
        motors matches Some((h, v)) ==> (spec_motor_for(direction) matches Some((motor, cw)) ==> {
            let g = if motor == PtzDevice::PTZ_DEV_H {
                h
            } else {
                v
            };
            let steps = trunc_div(g.cycle_step * degree, 360) as i32;
            &&& steps <= 0 ==> res == Ok::<Option<TurnPlan>, PlatformError>(None)
            &&& steps > 0 ==> res == Ok::<Option<TurnPlan>, PlatformError>(
                Some(TurnPlan { motor, clockwise: cw, steps }),
            )
        }),
{
    let (motor, clockwise) = match motor_for(motors.is_some(), direction) {
        Ok(m) => m,
        Err(e) => {
            return Err(e);
        },
    };
    let geometry = match motors {
        Some((h, v)) => if motor == PtzDevice::PTZ_DEV_H {
            *h
        } else {
            *v
        },
        None => {
            return Err(
                PlatformError::HardwareUnavailable(String::from_str("PTZ device not opened")),
            );
        },
    };
    let steps = geometry.degree_to_steps(degree);
    if steps <= 0 {
        return Ok(None);
    }
    Ok(Some(TurnPlan { motor, clockwise, steps }))
}

/// The motors a stop in `direction` stops, `(horizontal, vertical)`: the
/// motor of the direction, or both for the reserved direction; none when the
/// device is closed, which is not an error.
pub open spec fn spec_stop_targets(opened: bool, direction: PtzTurnDirection) -> (bool, bool) {
    if !opened {
        (false, false)
    } else {
        match direction {
            PtzTurnDirection::PTZ_TURN_LEFT | PtzTurnDirection::PTZ_TURN_RIGHT => (true, false),
            PtzTurnDirection::PTZ_TURN_UP | PtzTurnDirection::PTZ_TURN_DOWN => (false, true),
            PtzTurnDirection::PTZ_TURN_RESERVED => (true, true),
        }
    }
}

/// The motors a stop in `direction` stops, `(horizontal, vertical)`.
pub fn stop_targets(opened: bool, direction: PtzTurnDirection) -> (t: (bool, bool))
    ensures
        t == spec_stop_targets(opened, direction),
{
    if !opened {
        return (false, false);
    }
    match direction {
        PtzTurnDirection::PTZ_TURN_LEFT | PtzTurnDirection::PTZ_TURN_RIGHT => (true, false),
        PtzTurnDirection::PTZ_TURN_UP | PtzTurnDirection::PTZ_TURN_DOWN => (false, true),
        PtzTurnDirection::PTZ_TURN_RESERVED => (true, true),
    }
}

/// A stop stops the motor that a turn in the same direction would move.
pub proof fn lemma_stop_reaches_the_turning_motor(direction: PtzTurnDirection)
    ensures
        spec_motor_for(direction) matches Some((motor, cw)) ==> (motor == PtzDevice::PTZ_DEV_H
            ==> spec_stop_targets(true, direction).0) && (motor == PtzDevice::PTZ_DEV_V
            ==> spec_stop_targets(true, direction).1),
{
}

// ----------------------------------------------------------------------------
// Waiting for a motor
// ----------------------------------------------------------------------------

/// Outcome of one poll tick on a motor device.
#[derive(Debug, Clone, Copy, PartialEq, Eq, Structural)]
pub enum PollOutcome {
    /// A notification is pending.
    Readable,
    /// The tick expired with no event.
    TimedOut,
    /// The poll was interrupted by a signal.
    Interrupted,
}

/// What the interruptible wait does next.
#[derive(Debug, Clone, Copy, PartialEq, Eq, Structural)]
pub enum WaitAction {
    /// Stop the motor and report the wait as interrupted.
    StopAndReportInterrupted,
    /// Poll again.
    PollAgain,
    /// Read the pending notification and report it.
    ReadNotification,
    /// Give up: the motor did not signal before the deadline.
    TimedOut,
}

/// The step of the interruptible wait: a stop request wins; otherwise a
/// signal polls again, an idle tick polls again until the deadline has
/// passed, and a readable device is read.
pub open spec fn spec_wait_action(stop_requested: bool, poll: PollOutcome, deadline_passed: bool) -> WaitAction {
    if stop_requested {
        WaitAction::StopAndReportInterrupted
    } else {
        match poll {
            PollOutcome::Interrupted => WaitAction::PollAgain,
            PollOutcome::TimedOut => if deadline_passed {
                WaitAction::TimedOut
            } else {
                WaitAction::PollAgain
            },
            PollOutcome::Readable => WaitAction::ReadNotification,
        }
    }
}

/// Decide the next step of the interruptible wait.
pub fn wait_action(stop_requested: bool, poll: PollOutcome, deadline_passed: bool) -> (a: WaitAction)
    ensures
        a == spec_wait_action(stop_requested, poll, deadline_passed),
{
    if stop_requested {
        return WaitAction::StopAndReportInterrupted;
    }
    match poll {
        PollOutcome::Interrupted => WaitAction::PollAgain,
        PollOutcome::TimedOut => if deadline_passed {
            WaitAction::TimedOut
        } else {
            WaitAction::PollAgain
        },
        PollOutcome::Readable => WaitAction::ReadNotification,
    }
}

/// Message of a wait that reached its deadline.
pub open spec fn msg_wait_timed_out() -> Seq<char> {
    "motor wait timed out"@
}

/// The error of a wait that reached its deadline.
pub fn wait_timed_out() -> (e: PlatformError)
    ensures
        e is HardwareFailure && e.spec_message() == msg_wait_timed_out(),
{
    PlatformError::HardwareFailure(String::from_str("motor wait timed out"))
}

/// The outcome of a finished wait: the notification's event (0 when
/// interrupted), and the step position read afterwards, or -1 when that
/// read failed.
pub fn turn_outcome(notify: &NotifyData, interrupted: bool, step_pos: PlatformResult<i32>) -> (o: TurnOutcome)
    ensures
        o.interrupted == interrupted,
        o.event == notify.event,
        step_pos matches Ok(p) ==> o.step_pos == p,
        step_pos is Err ==> o.step_pos == -1,
{
    let pos = match step_pos {
        Ok(p) => p,
        Err(_) => -1,
    };
    TurnOutcome { interrupted, step_pos: pos, event: notify.event }
}


/// The motor and sense of a turn follow the direction's SDK code: the
/// reserved direction (0) turns nothing; left (1) and right (2) turn the
/// horizontal motor, up (3) and down (4) the vertical one; right and up turn
/// clockwise, left and down anticlockwise. So the two directions on one
/// motor turn it opposite ways.
pub proof fn lemma_motor_for_follows_the_direction_code(d: PtzTurnDirection, e: PtzTurnDirection)
    ensures
        spec_motor_for(d) is None <==> d.spec_code() == 0,
        spec_motor_for(d) matches Some((m, cw)) ==> ((m == PtzDevice::PTZ_DEV_H) <==> (d.spec_code() == 1
            || d.spec_code() == 2)) && (cw <==> (d.spec_code() == 2 || d.spec_code() == 3)),
        spec_motor_for(d) is Some && spec_motor_for(d) == spec_motor_for(e) ==> d == e,
{
}

} // verus!
