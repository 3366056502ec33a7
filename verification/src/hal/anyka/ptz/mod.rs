//! The native PTZ motor driver's decisions.

pub mod driver;

pub use driver::{ptz_device, ptz_feedback_pin, ptz_turn_direction};
