//! The Anyka SDK seams: the SDK's own types and error, and the PTZ, imaging,
//! audio and command-server calls with the decisions around them. Each call
//! goes through a backend trait; the backends here are the host build's,
//! whose every SDK call succeeds.

pub mod anyka_sdk;
pub mod audio;
pub mod imaging;
pub mod ipc;
pub mod ptz;
pub mod ptz_driver;
pub mod video;

pub use crate::hal::common::{
    ptz_device, ptz_feedback_pin, ptz_turn_direction, AK_FAILED, AK_SUCCESS,
};
pub use anyka_sdk::{PtzDirection, PtzMotor};
