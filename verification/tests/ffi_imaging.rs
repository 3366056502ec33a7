use std::cell::RefCell;

use onvif_hal::ffi::imaging::{
    imaging_set_ir_filter, imaging_set_ir_filter_internal, imaging_set_wdr, imaging_set_wdr_internal,
    ImagingFfiTrait,
};
use onvif_hal::hal::common::{AK_FAILED_I32, AK_SUCCESS_I32};
use onvif_hal::platform::PlatformError;

/// Records every switch it is asked for and answers with a fixed status.
struct MockImagingFfi {
    ret: i32,
    ir_calls: RefCell<Vec<bool>>,
    wdr_calls: RefCell<Vec<bool>>,
}

impl MockImagingFfi {
    fn answering(ret: i32) -> Self {
        MockImagingFfi { ret, ir_calls: RefCell::new(Vec::new()), wdr_calls: RefCell::new(Vec::new()) }
    }
}

impl ImagingFfiTrait for MockImagingFfi {
    fn set_brightness(&self, _value: i32) -> i32 {
        panic!("unexpected call")
    }
    fn set_contrast(&self, _value: i32) -> i32 {
        panic!("unexpected call")
    }
    fn set_saturation(&self, _value: i32) -> i32 {
        panic!("unexpected call")
    }
    fn set_sharpness(&self, _value: i32) -> i32 {
        panic!("unexpected call")
    }
    fn set_ir_filter(&self, enabled: bool) -> i32 {
        self.ir_calls.borrow_mut().push(enabled);
        self.ret
    }
    fn set_wdr(&self, enabled: bool) -> i32 {
        self.wdr_calls.borrow_mut().push(enabled);
        self.ret
    }
}

#[test]
fn test_imaging_set_ir_filter_internal_calls_ffi_enabled() {
    let mock_ffi = MockImagingFfi::answering(AK_SUCCESS_I32);
    let result = imaging_set_ir_filter_internal(true, &mock_ffi);
    assert!(result.is_ok());
    assert_eq!(*mock_ffi.ir_calls.borrow(), vec![true]);
}

#[test]
fn test_imaging_set_ir_filter_internal_calls_ffi_disabled() {
    let mock_ffi = MockImagingFfi::answering(AK_SUCCESS_I32);
    let result = imaging_set_ir_filter_internal(false, &mock_ffi);
    assert!(result.is_ok());
    assert_eq!(*mock_ffi.ir_calls.borrow(), vec![false]);
}

#[test]
fn test_imaging_set_ir_filter_internal_propagates_error() {
    let mock_ffi = MockImagingFfi::answering(AK_FAILED_I32);
    let result = imaging_set_ir_filter_internal(true, &mock_ffi);
    assert!(result.is_err());
    match result {
        Err(PlatformError::HardwareFailure(msg)) => {
            assert!(msg.contains("imaging_set_ir_filter"));
        }
        _ => panic!("Expected HardwareFailure error"),
    }
    assert_eq!(mock_ffi.ir_calls.borrow().len(), 1);
}

#[test]
fn test_imaging_set_wdr_internal_calls_ffi_enabled() {
    let mock_ffi = MockImagingFfi::answering(AK_SUCCESS_I32);
    let result = imaging_set_wdr_internal(true, &mock_ffi);
    assert!(result.is_ok());
    assert_eq!(*mock_ffi.wdr_calls.borrow(), vec![true]);
}

#[test]
fn test_imaging_set_wdr_internal_calls_ffi_disabled() {
    let mock_ffi = MockImagingFfi::answering(AK_SUCCESS_I32);
    let result = imaging_set_wdr_internal(false, &mock_ffi);
    assert!(result.is_ok());
    assert_eq!(*mock_ffi.wdr_calls.borrow(), vec![false]);
}

#[test]
fn test_imaging_set_wdr_internal_propagates_error() {
    let mock_ffi = MockImagingFfi::answering(AK_FAILED_I32);
    let result = imaging_set_wdr_internal(true, &mock_ffi);
    assert!(result.is_err());
    match result {
        Err(PlatformError::HardwareFailure(msg)) => {
            assert!(msg.contains("imaging_set_wdr"));
        }
        _ => panic!("Expected HardwareFailure error"),
    }
}

#[test]
fn test_imaging_set_ir_filter_success() {
    let result = imaging_set_ir_filter(true);
    assert!(result.is_ok());
}

#[test]
fn test_imaging_set_wdr_success() {
    let result = imaging_set_wdr(false);
    assert!(result.is_ok());
}

#[test]
fn imaging_unknown_sdk_code_is_reported_with_its_number() {
    let mock_ffi = MockImagingFfi::answering(-7);
    match imaging_set_wdr_internal(true, &mock_ffi) {
        Err(PlatformError::HardwareFailure(msg)) => assert_eq!(msg, "imaging_set_wdr: error code -7"),
        _ => panic!("Expected HardwareFailure error"),
    }
    match imaging_set_ir_filter_internal(false, &MockImagingFfi::answering(AK_FAILED_I32)) {
        Err(PlatformError::HardwareFailure(msg)) => assert_eq!(msg, "imaging_set_ir_filter failed"),
        _ => panic!("Expected HardwareFailure error"),
    }
}
