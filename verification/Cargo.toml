[package]
name = "onvif_hal"
version = "0.1.0"
edition = "2021"
publish = false

[dependencies]
bytes = "1"
libc = "0.2"
serde = { version = "1", features = ["derive"] }
thiserror = "2"
tracing = "0.1"
