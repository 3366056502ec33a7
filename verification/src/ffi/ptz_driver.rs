//! The PTZ types of the kernel motor driver, as the SDK seam names them.

pub use crate::hal::anyka::ptz::driver::{
    ptz_device, ptz_feedback_pin, ptz_turn_direction, MotorMessage, NotifyData,
    AK_MOTOR_EVENT_HIT, AK_MOTOR_EVENT_STOP, AK_MOTOR_EVENT_UNHIT, AK_MOTOR_MAX_SPEED,
    AK_MOTOR_MIN_SPEED,
};
