//! Hardware identifiers of the Anyka AK3918 platform: video device, resolution,
//! and the PTZ motors and directions with their SDK codes.

use vstd::prelude::*;

verus! {

/// Video device identifier.
#[derive(Debug, Clone, Copy, PartialEq, Eq, Structural, Default)]
pub struct VideoDevice(pub u32);

impl VideoDevice {
    /// Primary video device.
    #[allow(non_snake_case)]
    pub fn DEV0() -> (d: VideoDevice)
        ensures
            d.0 == 0,
    {
        VideoDevice(0)
    }
}

/// Video resolution in pixels.
#[derive(Debug, Clone, Copy, PartialEq, Eq, Structural, Default)]
pub struct Resolution {
    /// Width in pixels.
    pub width: u32,
    /// Height in pixels.
    pub height: u32,
}

impl Resolution {
    /// A resolution of `width` x `height`.
    pub fn new(width: u32, height: u32) -> (r: Self)
        ensures
            r.width == width,
            r.height == height,
    {
        Resolution { width, height }
    }

    /// 1920x1080 (1080p).
    #[allow(non_snake_case)]
    pub fn HD1080() -> (r: Resolution)
        ensures
            r.width == 1920,
            r.height == 1080,
    {
        Resolution { width: 1920, height: 1080 }
    }
    /// 1280x720 (720p).
    #[allow(non_snake_case)]
    pub fn HD720() -> (r: Resolution)
        ensures
            r.width == 1280,
            r.height == 720,
    {
        Resolution { width: 1280, height: 720 }
    }
    /// 640x480 (VGA).
    #[allow(non_snake_case)]
    pub fn VGA() -> (r: Resolution)
        ensures
            r.width == 640,
            r.height == 480,
    {
        Resolution { width: 640, height: 480 }
    }
    /// 320x240 (QVGA).
    #[allow(non_snake_case)]
    pub fn QVGA() -> (r: Resolution)
        ensures
            r.width == 320,
            r.height == 240,
    {
        Resolution { width: 320, height: 240 }
    }
}

/// PTZ motor.
#[derive(Debug, Clone, Copy, PartialEq, Eq, Structural)]
pub enum PtzMotor {
    /// Horizontal (pan) motor.
    Horizontal,
    /// Vertical (tilt) motor.
    Vertical,
}

impl PtzMotor {
    /// The SDK device id: 0 horizontal, 1 vertical.
    pub open spec fn spec_device_id(self) -> i32 {
        match self {
            PtzMotor::Horizontal => 0,
            PtzMotor::Vertical => 1,
        }
    }

    /// The SDK device id: 0 horizontal, 1 vertical.
    pub fn to_device_id(self) -> (id: i32)
        ensures
            id == self.spec_device_id(),
            self == PtzMotor::Horizontal ==> id == 0,
            self == PtzMotor::Vertical ==> id == 1,
    {
        match self {
            PtzMotor::Horizontal => 0,
            PtzMotor::Vertical => 1,
        }
    }
}

/// Each motor goes to the SDK as its own device id: horizontal 0,
/// vertical 1.
pub proof fn lemma_motor_ids_are_the_sdk_values(m: PtzMotor)
    ensures
        (m == PtzMotor::Horizontal) <==> (m.spec_device_id() == 0),
        (m == PtzMotor::Vertical) <==> (m.spec_device_id() == 1),
{
}

/// PTZ movement direction.
#[derive(Debug, Clone, Copy, PartialEq, Eq, Structural)]
pub enum PtzDirection {
    /// Move left.
    Left,
    /// Move right.
    Right,
    /// Move up.
    Up,
    /// Move down.
    Down,
}

impl PtzDirection {
    /// The SDK direction code: 1 left, 2 right, 3 up, 4 down.
    pub open spec fn spec_direction_code(self) -> i32 {
        match self {
            PtzDirection::Left => 1,
            PtzDirection::Right => 2,
            PtzDirection::Up => 3,
            PtzDirection::Down => 4,
        }
    }

    /// The SDK direction code: 1 left, 2 right, 3 up, 4 down.
    pub fn to_direction_code(self) -> (code: i32)
        ensures
            code == self.spec_direction_code(),
            self == PtzDirection::Left ==> code == 1,
            self == PtzDirection::Right ==> code == 2,
            self == PtzDirection::Up ==> code == 3,
            self == PtzDirection::Down ==> code == 4,
    {
        match self {
            PtzDirection::Left => 1,
            PtzDirection::Right => 2,
            PtzDirection::Up => 3,
            PtzDirection::Down => 4,
        }
    }
}

/// Each direction goes to the SDK as its own direction code: left 1,
/// right 2, up 3, down 4.
pub proof fn lemma_direction_codes_are_the_sdk_values(d: PtzDirection)
    ensures
        (d == PtzDirection::Left) <==> (d.spec_direction_code() == 1),
        (d == PtzDirection::Right) <==> (d.spec_direction_code() == 2),
        (d == PtzDirection::Up) <==> (d.spec_direction_code() == 3),
        (d == PtzDirection::Down) <==> (d.spec_direction_code() == 4),
{
}

} // verus!
