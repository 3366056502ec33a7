//! Hardware abstraction layer for the Anyka AK3918 platform.

pub mod anyka;
pub mod common;
pub mod frame_buf;
pub mod shm_ring;
pub mod wire;
