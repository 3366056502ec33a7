use std::cell::RefCell;

use onvif_hal::ffi::video::{
    sensor_resolution_outcome, video_encoder_open, video_encoder_open_internal, video_encoder_request_idr,
    video_encoder_request_idr_internal, video_encoder_set_rc, video_encoder_set_rc_internal,
    video_input_capture_on, video_input_capture_on_internal, video_input_get_sensor_resolution,
    video_input_get_sensor_resolution_internal, video_input_match_sensor, video_input_match_sensor_internal,
    video_input_open, video_input_open_internal, video_input_set_channel_attr,
    video_input_set_channel_attr_internal, VideoEncoderHandle, VideoFfiTrait, VideoInputHandle,
};
use onvif_hal::hal::anyka::sdk::VideoDevice;
use onvif_hal::hal::common::{
    encode_param, video_channel_attr, video_dev_type, video_resolution, AK_FAILED_I32, AK_SUCCESS_I32,
};
use onvif_hal::platform::PlatformError;

const TEST_HANDLE: usize = 1;

/// A video backend whose answers are set per test; it records what it was handed.
struct MockVideoFfi {
    open_handle: usize,
    ret: i32,
    resolution: video_resolution,
    opened: RefCell<Vec<video_dev_type>>,
    handles: RefCell<Vec<usize>>,
    paths: RefCell<Vec<String>>,
    rates: RefCell<Vec<i32>>,
}

impl MockVideoFfi {
    fn new() -> Self {
        MockVideoFfi {
            open_handle: TEST_HANDLE,
            ret: AK_SUCCESS_I32,
            resolution: video_resolution { width: 1920, height: 1080, max_width: 1920, max_height: 1080 },
            opened: RefCell::new(Vec::new()),
            handles: RefCell::new(Vec::new()),
            paths: RefCell::new(Vec::new()),
            rates: RefCell::new(Vec::new()),
        }
    }

    fn answering(ret: i32) -> Self {
        let mut m = MockVideoFfi::new();
        m.ret = ret;
        m
    }
}

impl VideoFfiTrait for MockVideoFfi {
    fn vi_match_sensor(&self, config_file: &str) -> i32 {
        self.paths.borrow_mut().push(config_file.to_string());
        self.ret
    }
    fn vi_open(&self, dev: video_dev_type) -> usize {
        self.opened.borrow_mut().push(dev);
        self.open_handle
    }
    fn vi_close(&self, _handle: usize) -> i32 {
        AK_SUCCESS_I32
    }
    fn vi_get_sensor_resolution(&self, handle: usize, res: &mut video_resolution) -> i32 {
        self.handles.borrow_mut().push(handle);
        if self.ret == AK_SUCCESS_I32 {
            *res = self.resolution;
        }
        self.ret
    }
    fn vi_set_channel_attr(&self, handle: usize, _attr: &video_channel_attr) -> i32 {
        self.handles.borrow_mut().push(handle);
        self.ret
    }
    fn vi_capture_on(&self, handle: usize) -> i32 {
        self.handles.borrow_mut().push(handle);
        self.ret
    }
    fn venc_open(&self, _param: &encode_param) -> usize {
        self.open_handle
    }
    fn venc_close(&self, _handle: usize) -> i32 {
        AK_SUCCESS_I32
    }
    fn venc_set_rc(&self, enc_handle: usize, bps: i32) -> i32 {
        self.handles.borrow_mut().push(enc_handle);
        self.rates.borrow_mut().push(bps);
        self.ret
    }
    fn venc_set_iframe(&self, enc_handle: usize) -> i32 {
        self.handles.borrow_mut().push(enc_handle);
        self.ret
    }
}

fn hd_param() -> encode_param {
    encode_param {
        width: 1920,
        height: 1080,
        minqp: 10,
        maxqp: 51,
        fps: 30,
        goplen: 30,
        bps: 2000000,
        ..Default::default()
    }
}

fn expect_failure(result: Result<(), PlatformError>, needle: &str) {
    assert!(result.is_err());
    match result {
        Err(PlatformError::HardwareFailure(msg)) => {
            assert!(msg.contains(needle));
        }
        _ => panic!("Expected HardwareFailure error"),
    }
}

#[test]
fn test_video_input_open_success() {
    let result = video_input_open(VideoDevice::DEV0());
    assert!(result.is_ok());
    let handle = result.unwrap();
    assert_ne!(handle.as_ptr(), 0);
}

#[test]
fn test_video_input_get_sensor_resolution_success() {
    let handle = video_input_open(VideoDevice::DEV0()).unwrap();
    let result = video_input_get_sensor_resolution(&handle);
    assert!(result.is_ok());
    let res = result.unwrap();
    assert_eq!(res.width, 1920);
    assert_eq!(res.height, 1080);
}

#[test]
fn test_video_encoder_open_success() {
    let result = video_encoder_open(&hd_param());
    assert!(result.is_ok());
    let handle = result.unwrap();
    assert_ne!(handle.as_ptr(), 0);
}

#[test]
fn test_video_encoder_set_rc_success() {
    let handle = video_encoder_open(&hd_param()).unwrap();
    let result = video_encoder_set_rc(&handle, 3000000);
    assert!(result.is_ok());
}

#[test]
fn test_video_encoder_request_idr_success() {
    let handle = video_encoder_open(&hd_param()).unwrap();
    let result = video_encoder_request_idr(&handle);
    assert!(result.is_ok());
}

#[test]
fn test_video_input_open_internal_calls_ffi_and_returns_handle() {
    let mock_ffi = MockVideoFfi::new();
    let result = video_input_open_internal(VideoDevice::DEV0(), &mock_ffi);
    assert!(result.is_ok());
    let handle = result.unwrap();
    assert_eq!(handle.as_ptr(), TEST_HANDLE);
    assert_eq!(*mock_ffi.opened.borrow(), vec![video_dev_type::Dev0]);
}

#[test]
fn test_video_input_open_internal_returns_error_on_null_handle() {
    let mut mock_ffi = MockVideoFfi::new();
    mock_ffi.open_handle = 0;
    let result = video_input_open_internal(VideoDevice::DEV0(), &mock_ffi);
    assert!(result.is_err());
    match result {
        Err(PlatformError::HardwareUnavailable(_)) => {}
        _ => panic!("Expected HardwareUnavailable error"),
    }
}

#[test]
fn test_video_input_open_internal_rejects_invalid_device() {
    let mock_ffi = MockVideoFfi::new();
    let invalid_device = VideoDevice(1);
    let result = video_input_open_internal(invalid_device, &mock_ffi);
    assert!(result.is_err());
    match result {
        Err(PlatformError::InvalidParameter(msg)) => {
            assert!(msg.contains("Invalid video device ID"));
            assert!(msg.contains("1"));
        }
        _ => panic!("Expected InvalidParameter error"),
    }
    assert!(mock_ffi.opened.borrow().is_empty());
}

#[test]
fn test_video_input_get_sensor_resolution_internal_calls_ffi_and_returns_resolution() {
    let mock_ffi = MockVideoFfi::new();
    let vi_handle = VideoInputHandle::test_handle();
    let result = video_input_get_sensor_resolution_internal(&vi_handle, &mock_ffi);
    assert!(result.is_ok());
    let res = result.unwrap();
    assert_eq!(res.width, 1920);
    assert_eq!(res.height, 1080);
    assert_eq!(*mock_ffi.handles.borrow(), vec![0]);
}

#[test]
fn test_video_input_get_sensor_resolution_internal_propagates_error() {
    let mock_ffi = MockVideoFfi::answering(AK_FAILED_I32);
    let vi_handle = VideoInputHandle::test_handle();
    let result = video_input_get_sensor_resolution_internal(&vi_handle, &mock_ffi);
    assert!(result.is_err());
    match result {
        Err(PlatformError::HardwareFailure(msg)) => {
            assert!(msg.contains("ak_vi_get_sensor_resolution"));
        }
        _ => panic!("Expected HardwareFailure error"),
    }
}

#[test]
fn test_video_input_set_channel_attr_internal_calls_ffi() {
    let mock_ffi = MockVideoFfi::new();
    let vi_handle = VideoInputHandle::test_handle();
    let attr = video_channel_attr::default();
    let result = video_input_set_channel_attr_internal(&vi_handle, &attr, &mock_ffi);
    assert!(result.is_ok());
    assert_eq!(*mock_ffi.handles.borrow(), vec![0]);
}

#[test]
fn test_video_input_set_channel_attr_internal_propagates_error() {
    let mock_ffi = MockVideoFfi::answering(AK_FAILED_I32);
    let vi_handle = VideoInputHandle::test_handle();
    let attr = video_channel_attr::default();
    let result = video_input_set_channel_attr_internal(&vi_handle, &attr, &mock_ffi);
    expect_failure(result, "ak_vi_set_channel_attr");
}

#[test]
fn test_video_encoder_open_internal_calls_ffi_and_returns_handle() {
    let mock_ffi = MockVideoFfi::new();
    let result = video_encoder_open_internal(&hd_param(), &mock_ffi);
    assert!(result.is_ok());
    let handle = result.unwrap();
    assert_eq!(handle.as_ptr(), TEST_HANDLE);
}

#[test]
fn test_video_encoder_open_internal_returns_error_on_null_handle() {
    let mut mock_ffi = MockVideoFfi::new();
    mock_ffi.open_handle = 0;
    let result = video_encoder_open_internal(&hd_param(), &mock_ffi);
    assert!(result.is_err());
    match result {
        Err(PlatformError::HardwareUnavailable(_)) => {}
        _ => panic!("Expected HardwareUnavailable error"),
    }
}

#[test]
fn test_video_encoder_set_rc_internal_calls_ffi() {
    let mock_ffi = MockVideoFfi::new();
    let enc_handle = VideoEncoderHandle::test_handle();
    let result = video_encoder_set_rc_internal(&enc_handle, 3000000, &mock_ffi);
    assert!(result.is_ok());
    assert_eq!(*mock_ffi.handles.borrow(), vec![0]);
    assert_eq!(*mock_ffi.rates.borrow(), vec![3000000]);
}

#[test]
fn test_video_encoder_set_rc_internal_propagates_error() {
    let mock_ffi = MockVideoFfi::answering(AK_FAILED_I32);
    let enc_handle = VideoEncoderHandle::test_handle();
    let result = video_encoder_set_rc_internal(&enc_handle, 3000000, &mock_ffi);
    expect_failure(result, "ak_venc_set_rc");
}

#[test]
fn test_video_encoder_request_idr_internal_calls_ffi() {
    let mock_ffi = MockVideoFfi::new();
    let enc_handle = VideoEncoderHandle::test_handle();
    let result = video_encoder_request_idr_internal(&enc_handle, &mock_ffi);
    assert!(result.is_ok());
    assert_eq!(*mock_ffi.handles.borrow(), vec![0]);
}

#[test]
fn test_video_encoder_request_idr_internal_propagates_error() {
    let mock_ffi = MockVideoFfi::answering(AK_FAILED_I32);
    let enc_handle = VideoEncoderHandle::test_handle();
    let result = video_encoder_request_idr_internal(&enc_handle, &mock_ffi);
    expect_failure(result, "ak_venc_set_iframe");
}

#[test]
fn test_video_input_match_sensor_internal_success() {
    let mock_ffi = MockVideoFfi::new();
    let result = video_input_match_sensor_internal("/tmp/sensor/isp_gc1084.conf", &mock_ffi);
    assert!(result.is_ok());
}

#[test]
fn test_video_input_match_sensor_internal_ffi_failure() {
    let mock_ffi = MockVideoFfi::answering(AK_FAILED_I32);
    let result = video_input_match_sensor_internal("/tmp/sensor/isp_gc1084.conf", &mock_ffi);
    expect_failure(result, "ak_vi_match_sensor");
}

#[test]
fn test_video_input_match_sensor_internal_passes_correct_path() {
    let mock_ffi = MockVideoFfi::new();
    let result = video_input_match_sensor_internal("/etc/jffs2/isp_gc1084.conf", &mock_ffi);
    assert!(result.is_ok());
    assert_eq!(*mock_ffi.paths.borrow(), vec!["/etc/jffs2/isp_gc1084.conf".to_string()]);
}

#[test]
fn test_video_input_capture_on_internal_success() {
    let mock_ffi = MockVideoFfi::new();
    let vi_handle = VideoInputHandle::test_handle();
    let result = video_input_capture_on_internal(&vi_handle, &mock_ffi);
    assert!(result.is_ok());
}

#[test]
fn test_video_input_capture_on_internal_ffi_failure() {
    let mock_ffi = MockVideoFfi::answering(AK_FAILED_I32);
    let vi_handle = VideoInputHandle::test_handle();
    let result = video_input_capture_on_internal(&vi_handle, &mock_ffi);
    expect_failure(result, "ak_vi_capture_on");
}

#[test]
fn test_video_input_capture_on_internal_unknown_error_code() {
    let mock_ffi = MockVideoFfi::answering(-99);
    let vi_handle = VideoInputHandle::test_handle();
    let result = video_input_capture_on_internal(&vi_handle, &mock_ffi);
    expect_failure(result, "error code -99");
}

#[test]
fn video_stub_backend_succeeds_everywhere() {
    let vi = video_input_open(VideoDevice::DEV0()).unwrap();
    assert!(video_input_set_channel_attr(&vi, &video_channel_attr::default()).is_ok());
    assert!(video_input_capture_on(&vi).is_ok());
    assert!(video_input_match_sensor("/etc/jffs2/isp_gc1084.conf").is_ok());
    match video_input_match_sensor("/etc/a\0b") {
        Err(PlatformError::InvalidParameter(msg)) => assert_eq!(msg, "ISP config path contains null byte"),
        _ => panic!("Expected InvalidParameter error"),
    }
    match video_input_open(VideoDevice(3)) {
        Err(PlatformError::InvalidParameter(msg)) => {
            assert_eq!(msg, "Invalid video device ID: 3. Only VideoDevice::DEV0 is supported")
        }
        _ => panic!("Expected InvalidParameter error"),
    }
}

#[test]
fn non_positive_bitrate_is_refused_before_the_call() {
    let mock_ffi = MockVideoFfi::new();
    let enc_handle = VideoEncoderHandle::test_handle();
    for bps in [0, -1] {
        match video_encoder_set_rc_internal(&enc_handle, bps, &mock_ffi) {
            Err(PlatformError::InvalidParameter(msg)) => assert_eq!(msg, "bitrate must be positive"),
            _ => panic!("Expected InvalidParameter error"),
        }
    }
    assert!(mock_ffi.rates.borrow().is_empty());
}

#[test]
fn negative_sensor_dimensions_are_refused() {
    let neg_w = video_resolution { width: -1, height: 1080, max_width: 0, max_height: 0 };
    match sensor_resolution_outcome(AK_SUCCESS_I32, neg_w) {
        Err(PlatformError::InvalidParameter(msg)) => assert_eq!(msg, "width must be non-negative"),
        _ => panic!("Expected InvalidParameter error"),
    }
    let neg_h = video_resolution { width: 640, height: -5, max_width: 0, max_height: 0 };
    match sensor_resolution_outcome(AK_SUCCESS_I32, neg_h) {
        Err(PlatformError::InvalidParameter(msg)) => assert_eq!(msg, "height must be non-negative"),
        _ => panic!("Expected InvalidParameter error"),
    }
    let ok = sensor_resolution_outcome(AK_SUCCESS_I32, video_resolution { width: 640, height: 480, max_width: 0, max_height: 0 })
        .unwrap();
    assert_eq!((ok.width, ok.height), (640, 480));
}

#[test]
fn closing_video_handles_reaches_the_sdk_only_for_a_non_null_one() {
    let mock_ffi = MockVideoFfi::new();
    assert!(!VideoInputHandle::test_handle().close(&mock_ffi));
    assert!(!VideoEncoderHandle::test_handle().close(&mock_ffi));
    let vi = video_input_open_internal(VideoDevice::DEV0(), &mock_ffi).unwrap();
    assert!(vi.close(&mock_ffi));
    let enc = video_encoder_open_internal(&hd_param(), &mock_ffi).unwrap();
    assert!(enc.close(&mock_ffi));
}
