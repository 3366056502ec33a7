//! The Anyka AK3918 backend: hardware identifiers, the native PTZ motor
//! driver's decisions, and the vendor-daemon client.

pub mod ipc;
pub mod ptz;
pub mod sdk;
