//! Platform-level error type and frame descriptors shared by every HAL module.

pub mod common;
pub mod frame;

use vstd::prelude::*;

verus! {

/// Errors reported by the hardware abstraction layer.
#[derive(Debug, Clone)]
pub enum PlatformError {
    /// The hardware reported a failure.
    HardwareFailure(String),
    /// The hardware or its daemon is not reachable.
    HardwareUnavailable(String),
    /// A component could not be started.
    InitializationFailed(String),
    /// An argument or a value read from shared state is out of range.
    InvalidParameter(String),
    /// A resource is momentarily held elsewhere; the caller may retry.
    ResourceBusy(String),
    /// The producer announced an orderly shutdown.
    Shutdown(String),
    /// An operation did not complete in time.
    Timeout,
}

/// Result type of HAL operations.
pub type PlatformResult<T> = Result<T, PlatformError>;

impl PlatformError {
    /// The message carried by the error (empty for `Timeout`).
    pub open spec fn spec_message(&self) -> Seq<char> {
        match self {
            PlatformError::HardwareFailure(m) => m@,
            PlatformError::HardwareUnavailable(m) => m@,
            PlatformError::InitializationFailed(m) => m@,
            PlatformError::InvalidParameter(m) => m@,
            PlatformError::ResourceBusy(m) => m@,
            PlatformError::Shutdown(m) => m@,
            PlatformError::Timeout => Seq::empty(),
        }
    }

    /// The message carried by the error (empty for `Timeout`).
    pub fn message(&self) -> (m: String)
        ensures
            m@ == self.spec_message(),
    {
        match self {
            PlatformError::HardwareFailure(m) => m.clone(),
            PlatformError::HardwareUnavailable(m) => m.clone(),
            PlatformError::InitializationFailed(m) => m.clone(),
            PlatformError::InvalidParameter(m) => m.clone(),
            PlatformError::ResourceBusy(m) => m.clone(),
            PlatformError::Shutdown(m) => m.clone(),
            PlatformError::Timeout => String::new(),
        }
    }
}

impl PlatformError {
    /// The error as it is displayed: its kind, then its message.
    pub open spec fn spec_display(&self) -> Seq<char> {
        match self {
            PlatformError::HardwareFailure(m) => "hardware failure: "@ + m@,
            PlatformError::HardwareUnavailable(m) => "hardware unavailable: "@ + m@,
            PlatformError::InitializationFailed(m) => "initialization failed: "@ + m@,
            PlatformError::InvalidParameter(m) => "invalid parameter: "@ + m@,
            PlatformError::ResourceBusy(m) => "resource busy: "@ + m@,
            PlatformError::Shutdown(m) => "shutdown: "@ + m@,
            PlatformError::Timeout => "timeout"@,
        }
    }

    /// The error as it is displayed: its kind, then its message.
    pub fn display_text(&self) -> (s: String)
        ensures
            s@ == self.spec_display(),
    {
        let (kind, m) = match self {
            PlatformError::HardwareFailure(m) => ("hardware failure: ", m.as_str()),
            PlatformError::HardwareUnavailable(m) => ("hardware unavailable: ", m.as_str()),
            PlatformError::InitializationFailed(m) => ("initialization failed: ", m.as_str()),
            PlatformError::InvalidParameter(m) => ("invalid parameter: ", m.as_str()),
            PlatformError::ResourceBusy(m) => ("resource busy: ", m.as_str()),
            PlatformError::Shutdown(m) => ("shutdown: ", m.as_str()),
            PlatformError::Timeout => {
                return String::from_str("timeout");
            },
        };
        let mut s = String::from_str(kind);
        s.append(m);
        s
    }
}

/// `res` is `Err(InvalidParameter(m))` with message `msg`.
pub open spec fn is_invalid_parameter<T>(res: PlatformResult<T>, msg: Seq<char>) -> bool {
    res matches Err(PlatformError::InvalidParameter(m)) && m@ == msg
}

/// `res` is `Err(HardwareFailure(m))` with message `msg`.
pub open spec fn is_hardware_failure<T>(res: PlatformResult<T>, msg: Seq<char>) -> bool {
    res matches Err(PlatformError::HardwareFailure(m)) && m@ == msg
}

/// `res` is `Err(HardwareUnavailable(m))` with message `msg`.
pub open spec fn is_hardware_unavailable<T>(res: PlatformResult<T>, msg: Seq<char>) -> bool {
    res matches Err(PlatformError::HardwareUnavailable(m)) && m@ == msg
}

/// `res` is `Err(ResourceBusy(m))` with message `msg`.
pub open spec fn is_resource_busy<T>(res: PlatformResult<T>, msg: Seq<char>) -> bool {
    res matches Err(PlatformError::ResourceBusy(m)) && m@ == msg
}

/// `res` is `Err(Timeout)`.
pub open spec fn is_timeout<T>(res: PlatformResult<T>) -> bool {
    res matches Err(PlatformError::Timeout)
}

} // verus!
