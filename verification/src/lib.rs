//! Verified core of the Anyka AK3918 camera hardware layer: shared-memory
//! frame ring, vendor-daemon wire protocol, PTZ and SDK result handling.

pub mod platform;
pub mod text;
pub mod ffi;
pub mod hal;
