use std::cell::RefCell;

use onvif_hal::hal::anyka::sdk::VideoDevice;
use onvif_hal::hal::common::video::{
    cancel_start_checked, cancel_start_flag, video_encoder_open, video_encoder_request_idr,
    video_encoder_set_rc, video_input_capture_off, video_input_capture_on, video_input_get_sensor_resolution,
    video_input_match_sensor, video_input_open, video_input_set_channel_attr, video_input_set_flip_mirror,
    vpss_destroy, vpss_init, CancelOutcome, CancelStart, CancelState, VideoEncoderHandle, VideoHalTrait,
    VideoInputHandle, VideoStreamHandle,
};
use onvif_hal::hal::common::{
    encode_param, video_channel_attr, video_dev_type, video_resolution, AK_FAILED_I32, AK_SUCCESS_I32,
};
use onvif_hal::platform::PlatformError;

const TEST_HANDLE: usize = 1;

/// A HAL video backend whose answers are set per test; it records the calls.
struct MockVideoHal {
    open_handle: usize,
    stream_handle: usize,
    ret: i32,
    calls: RefCell<Vec<String>>,
    flip_mirror: RefCell<Vec<(usize, bool, bool)>>,
    vpss: RefCell<Vec<(usize, i32)>>,
    paths: RefCell<Vec<String>>,
}

impl MockVideoHal {
    fn new() -> Self {
        MockVideoHal {
            open_handle: TEST_HANDLE,
            stream_handle: 0x40,
            ret: AK_SUCCESS_I32,
            calls: RefCell::new(Vec::new()),
            flip_mirror: RefCell::new(Vec::new()),
            vpss: RefCell::new(Vec::new()),
            paths: RefCell::new(Vec::new()),
        }
    }

    fn answering(ret: i32) -> Self {
        let mut m = MockVideoHal::new();
        m.ret = ret;
        m
    }

    fn record(&self, name: &str, handle: usize) {
        self.calls.borrow_mut().push(format!("{}@{}", name, handle));
    }

    fn count(&self, name: &str) -> usize {
        self.calls.borrow().iter().filter(|c| c.starts_with(name)).count()
    }
}

impl VideoHalTrait for MockVideoHal {
    fn vi_match_sensor(&self, config_file: &str) -> i32 {
        self.paths.borrow_mut().push(config_file.to_string());
        self.ret
    }
    fn vi_open(&self, dev: video_dev_type) -> usize {
        assert_eq!(dev, video_dev_type::Dev0);
        self.open_handle
    }
    fn vi_get_sensor_resolution(&self, handle: usize, res: &mut video_resolution) -> i32 {
        self.record("vi_get_sensor_resolution", handle);
        if self.ret == AK_SUCCESS_I32 {
            res.width = 1920;
            res.height = 1080;
            res.max_width = 1920;
            res.max_height = 1080;
        }
        self.ret
    }
    fn vi_set_channel_attr(&self, handle: usize, _attr: &video_channel_attr) -> i32 {
        self.record("vi_set_channel_attr", handle);
        self.ret
    }
    fn vi_capture_on(&self, handle: usize) -> i32 {
        self.record("vi_capture_on", handle);
        self.ret
    }
    fn vi_capture_off(&self, handle: usize) -> i32 {
        self.record("vi_capture_off", handle);
        self.ret
    }
    fn vi_set_flip_mirror(&self, handle: usize, flip: bool, mirror: bool) -> i32 {
        self.flip_mirror.borrow_mut().push((handle, flip, mirror));
        self.ret
    }
    fn vpss_init(&self, vi_handle: usize, dev: i32) {
        self.vpss.borrow_mut().push((vi_handle, dev));
    }
    fn vpss_destroy(&self, dev: i32) {
        self.vpss.borrow_mut().push((usize::MAX, dev));
    }
    fn venc_open(&self, _param: &encode_param) -> usize {
        self.open_handle
    }
    fn venc_close(&self, handle: usize) -> i32 {
        self.record("venc_close", handle);
        self.ret
    }
    fn venc_set_rc(&self, enc_handle: usize, bps: i32) -> i32 {
        self.record(&format!("venc_set_rc({})", bps), enc_handle);
        self.ret
    }
    fn venc_set_iframe(&self, enc_handle: usize) -> i32 {
        self.record("venc_set_iframe", enc_handle);
        self.ret
    }
    fn venc_request_stream(&self, vi_handle: usize, venc_handle: usize) -> usize {
        self.calls.borrow_mut().push(format!("venc_request_stream({},{})", vi_handle, venc_handle));
        self.stream_handle
    }
    fn venc_cancel_stream(&self, stream_handle: usize) -> i32 {
        self.record("venc_cancel_stream", stream_handle);
        self.ret
    }
}

fn hd_param() -> encode_param {
    encode_param {
        width: 1920,
        height: 1080,
        minqp: 10,
        maxqp: 51,
        fps: 30,
        goplen: 30,
        bps: 2000000,
        ..Default::default()
    }
}

fn expect_failure(result: Result<(), PlatformError>, needle: &str) {
    assert!(result.is_err());
    match result {
        Err(PlatformError::HardwareFailure(msg)) => {
            assert!(msg.contains(needle));
        }
        _ => panic!("Expected HardwareFailure error"),
    }
}

fn expect_invalid_device(result: Result<(), PlatformError>) {
    assert!(result.is_err());
    match result {
        Err(PlatformError::InvalidParameter(msg)) => {
            assert!(msg.contains("Invalid video device ID"));
            assert!(msg.contains("1"));
        }
        _ => panic!("Expected InvalidParameter error"),
    }
}

#[test]
fn test_video_input_open_calls_ffi_and_returns_handle() {
    let mock_ffi = MockVideoHal::new();
    let result = video_input_open(VideoDevice::DEV0(), &mock_ffi);
    assert!(result.is_ok());
    assert_eq!(result.unwrap().as_ptr(), TEST_HANDLE);
}

#[test]
fn test_video_input_open_returns_error_on_null_handle() {
    let mut mock_ffi = MockVideoHal::new();
    mock_ffi.open_handle = 0;
    let result = video_input_open(VideoDevice::DEV0(), &mock_ffi);
    assert!(result.is_err());
    match result {
        Err(PlatformError::HardwareUnavailable(_)) => {}
        _ => panic!("Expected HardwareUnavailable error"),
    }
}

#[test]
fn test_video_input_open_rejects_invalid_device() {
    let mock_ffi = MockVideoHal::new();
    let result = video_input_open(VideoDevice(1), &mock_ffi).map(|_| ());
    expect_invalid_device(result);
}

#[test]
fn test_video_input_get_sensor_resolution_calls_ffi_and_returns_resolution() {
    let mock_ffi = MockVideoHal::new();
    let vi_handle = VideoInputHandle::test_handle();
    let result = video_input_get_sensor_resolution(&vi_handle, &mock_ffi);
    assert!(result.is_ok());
    let res = result.unwrap();
    assert_eq!(res.width, 1920);
    assert_eq!(res.height, 1080);
    assert_eq!(*mock_ffi.calls.borrow(), vec!["vi_get_sensor_resolution@0".to_string()]);
}

#[test]
fn test_video_input_get_sensor_resolution_propagates_error() {
    let mock_ffi = MockVideoHal::answering(AK_FAILED_I32);
    let vi_handle = VideoInputHandle::test_handle();
    let result = video_input_get_sensor_resolution(&vi_handle, &mock_ffi).map(|_| ());
    expect_failure(result, "ak_vi_get_sensor_resolution");
}

#[test]
fn test_video_input_set_channel_attr_calls_ffi() {
    let mock_ffi = MockVideoHal::new();
    let vi_handle = VideoInputHandle::test_handle();
    let attr = video_channel_attr::default();
    assert!(video_input_set_channel_attr(&vi_handle, &attr, &mock_ffi).is_ok());
    assert_eq!(mock_ffi.count("vi_set_channel_attr@0"), 1);
}

#[test]
fn test_video_input_set_channel_attr_propagates_error() {
    let mock_ffi = MockVideoHal::answering(AK_FAILED_I32);
    let vi_handle = VideoInputHandle::test_handle();
    let attr = video_channel_attr::default();
    expect_failure(video_input_set_channel_attr(&vi_handle, &attr, &mock_ffi), "ak_vi_set_channel_attr");
}

#[test]
fn test_video_encoder_open_calls_ffi_and_returns_handle() {
    let mock_ffi = MockVideoHal::new();
    let result = video_encoder_open(&hd_param(), &mock_ffi);
    assert!(result.is_ok());
    assert_eq!(result.unwrap().as_ptr(), TEST_HANDLE);
}

#[test]
fn test_video_encoder_open_returns_error_on_null_handle() {
    let mut mock_ffi = MockVideoHal::new();
    mock_ffi.open_handle = 0;
    let result = video_encoder_open(&hd_param(), &mock_ffi);
    assert!(result.is_err());
    match result {
        Err(PlatformError::HardwareUnavailable(_)) => {}
        _ => panic!("Expected HardwareUnavailable error"),
    }
}

#[test]
fn test_video_encoder_set_rc_calls_ffi() {
    let mock_ffi = MockVideoHal::new();
    let enc_handle = VideoEncoderHandle::test_handle();
    assert!(video_encoder_set_rc(&enc_handle, 3000000, &mock_ffi).is_ok());
    assert_eq!(mock_ffi.count("venc_set_rc(3000000)@0"), 1);
}

#[test]
fn test_video_encoder_set_rc_propagates_error() {
    let mock_ffi = MockVideoHal::answering(AK_FAILED_I32);
    let enc_handle = VideoEncoderHandle::test_handle();
    expect_failure(video_encoder_set_rc(&enc_handle, 3000000, &mock_ffi), "ak_venc_set_rc");
}

#[test]
fn test_video_encoder_request_idr_calls_ffi() {
    let mock_ffi = MockVideoHal::new();
    let enc_handle = VideoEncoderHandle::test_handle();
    assert!(video_encoder_request_idr(&enc_handle, &mock_ffi).is_ok());
    assert_eq!(mock_ffi.count("venc_set_iframe@0"), 1);
}

#[test]
fn test_video_encoder_request_idr_propagates_error() {
    let mock_ffi = MockVideoHal::answering(AK_FAILED_I32);
    let enc_handle = VideoEncoderHandle::test_handle();
    expect_failure(video_encoder_request_idr(&enc_handle, &mock_ffi), "ak_venc_set_iframe");
}

#[test]
fn test_video_input_match_sensor_success() {
    let mock_ffi = MockVideoHal::new();
    assert!(video_input_match_sensor("/tmp/sensor/isp_gc1084.conf", &mock_ffi).is_ok());
}

#[test]
fn test_video_input_match_sensor_ffi_failure() {
    let mock_ffi = MockVideoHal::answering(AK_FAILED_I32);
    expect_failure(video_input_match_sensor("/tmp/sensor/isp_gc1084.conf", &mock_ffi), "ak_vi_match_sensor");
}

#[test]
fn test_video_input_match_sensor_passes_correct_path() {
    let mock_ffi = MockVideoHal::new();
    assert!(video_input_match_sensor("/etc/jffs2/isp_gc1084.conf", &mock_ffi).is_ok());
    assert_eq!(*mock_ffi.paths.borrow(), vec!["/etc/jffs2/isp_gc1084.conf".to_string()]);
}

#[test]
fn test_video_input_capture_on_success() {
    let mock_ffi = MockVideoHal::new();
    let vi_handle = VideoInputHandle::test_handle();
    assert!(video_input_capture_on(&vi_handle, &mock_ffi).is_ok());
}

#[test]
fn test_video_input_capture_on_ffi_failure() {
    let mock_ffi = MockVideoHal::answering(AK_FAILED_I32);
    let vi_handle = VideoInputHandle::test_handle();
    expect_failure(video_input_capture_on(&vi_handle, &mock_ffi), "ak_vi_capture_on");
}

#[test]
fn test_video_input_capture_on_unknown_error_code() {
    let mock_ffi = MockVideoHal::answering(-99);
    let vi_handle = VideoInputHandle::test_handle();
    expect_failure(video_input_capture_on(&vi_handle, &mock_ffi), "error code -99");
}

#[test]
fn test_video_input_capture_off_success() {
    let mock_ffi = MockVideoHal::new();
    let vi_handle = VideoInputHandle::test_handle();
    assert!(video_input_capture_off(&vi_handle, &mock_ffi).is_ok());
    assert_eq!(mock_ffi.count("vi_capture_off"), 1);
}

#[test]
fn test_video_input_capture_off_ffi_failure() {
    let mock_ffi = MockVideoHal::answering(AK_FAILED_I32);
    let vi_handle = VideoInputHandle::test_handle();
    expect_failure(video_input_capture_off(&vi_handle, &mock_ffi), "ak_vi_capture_off");
}

#[test]
fn test_video_input_set_flip_mirror_calls_ffi_with_correct_flags() {
    let mock_ffi = MockVideoHal::new();
    let vi_handle = VideoInputHandle::test_handle();
    assert!(video_input_set_flip_mirror(&vi_handle, true, true, &mock_ffi).is_ok());
    assert_eq!(*mock_ffi.flip_mirror.borrow(), vec![(0, true, true)]);
}

#[test]
fn test_video_input_set_flip_mirror_does_not_swap_flip_and_mirror() {
    let mock_ffi = MockVideoHal::new();
    let vi_handle = VideoInputHandle::test_handle();
    assert!(video_input_set_flip_mirror(&vi_handle, true, false, &mock_ffi).is_ok());
    assert_eq!(*mock_ffi.flip_mirror.borrow(), vec![(0, true, false)]);
}

#[test]
fn test_video_input_set_flip_mirror_propagates_error() {
    let mock_ffi = MockVideoHal::answering(AK_FAILED_I32);
    let vi_handle = VideoInputHandle::test_handle();
    expect_failure(video_input_set_flip_mirror(&vi_handle, true, true, &mock_ffi), "ak_vi_set_flip_mirror");
}

#[test]
fn test_vpss_init_calls_ffi() {
    let mock_ffi = MockVideoHal::new();
    let vi_handle = VideoInputHandle::test_handle();
    assert!(vpss_init(&vi_handle, VideoDevice::DEV0(), &mock_ffi).is_ok());
    assert_eq!(*mock_ffi.vpss.borrow(), vec![(0, 0)]);
}

#[test]
fn test_vpss_init_rejects_invalid_device() {
    let mock_ffi = MockVideoHal::new();
    let vi_handle = VideoInputHandle::test_handle();
    expect_invalid_device(vpss_init(&vi_handle, VideoDevice(1), &mock_ffi));
    assert!(mock_ffi.vpss.borrow().is_empty());
}

#[test]
fn test_vpss_destroy_calls_ffi() {
    let mock_ffi = MockVideoHal::new();
    assert!(vpss_destroy(VideoDevice::DEV0(), &mock_ffi).is_ok());
    assert_eq!(mock_ffi.vpss.borrow().len(), 1);
}

#[test]
fn test_vpss_destroy_rejects_invalid_device() {
    let mock_ffi = MockVideoHal::new();
    expect_invalid_device(vpss_destroy(VideoDevice(1), &mock_ffi));
    assert!(mock_ffi.vpss.borrow().is_empty());
}

#[test]
fn encoder_close_reaches_the_sdk_once() {
    let mock_ffi = MockVideoHal::answering(AK_FAILED_I32);
    let mut enc = video_encoder_open(&hd_param(), &mock_ffi).unwrap();
    assert!(!enc.is_closed());
    expect_failure(enc.close_blocking_with_ffi(&mock_ffi), "ak_venc_close");
    assert!(enc.is_closed());
    assert!(enc.close_blocking_with_ffi(&mock_ffi).is_ok());
    assert_eq!(mock_ffi.count("venc_close"), 1);

    let mut empty = VideoEncoderHandle::test_handle();
    assert!(empty.close_blocking_with_ffi(&mock_ffi).is_ok());
    assert_eq!(mock_ffi.count("venc_close"), 1);
}

#[test]
fn stream_request_binds_input_and_encoder() {
    let mock_ffi = MockVideoHal::new();
    let stream = VideoStreamHandle::new(3, 4, &mock_ffi).unwrap();
    assert_eq!(stream.as_ptr(), 0x40);
    assert_eq!(stream.cancel_state(), CancelState::Active);
    assert_eq!(mock_ffi.count("venc_request_stream(3,4)"), 1);

    let mut none = MockVideoHal::new();
    none.stream_handle = 0;
    match VideoStreamHandle::new(3, 4, &none) {
        Err(PlatformError::HardwareFailure(msg)) => assert_eq!(msg, "ak_venc_request_stream returned null"),
        _ => panic!("Expected HardwareFailure error"),
    }
}

#[test]
fn stream_cancel_blocking_reaches_the_sdk_once() {
    let mock_ffi = MockVideoHal::new();
    let mut stream = VideoStreamHandle::new(1, 2, &mock_ffi).unwrap();
    assert!(stream.cancel_blocking(&mock_ffi).is_ok());
    assert_eq!(stream.cancel_state(), CancelState::Done);
    assert!(stream.cancel_blocking(&mock_ffi).is_ok());
    assert!(stream.cancel_blocking(&mock_ffi).is_ok());
    assert_eq!(mock_ffi.count("venc_cancel_stream@64"), 1);
}

#[test]
fn stream_cancel_failure_still_settles_the_stream() {
    let mock_ffi = MockVideoHal::answering(-5);
    let mut stream = VideoStreamHandle::new(1, 2, &mock_ffi).unwrap();
    expect_failure(stream.cancel_blocking(&mock_ffi), "ak_venc_cancel_stream: error code -5");
    assert_eq!(stream.cancel_state(), CancelState::Done);
    assert!(stream.cancel_blocking(&mock_ffi).is_ok());
    assert_eq!(mock_ffi.count("venc_cancel_stream"), 1);
}

#[test]
fn stream_cancel_that_timed_out_stays_indeterminate() {
    let mock_ffi = MockVideoHal::new();
    let mut stream = VideoStreamHandle::new(1, 2, &mock_ffi).unwrap();
    let start = stream.begin_cancel();
    assert_eq!(start, CancelStart::CallSdk(0x40));
    assert_eq!(stream.cancel_state(), CancelState::Pending);
    // A second request while the call is under way does not call again.
    assert_eq!(stream.begin_cancel(), CancelStart::Indeterminate);
    assert_eq!(cancel_start_flag(CancelStart::Indeterminate), Some(false));
    assert!(!stream.finish_cancel(CancelOutcome::TimedOut));
    assert_eq!(stream.cancel_state(), CancelState::Unknown);
    expect_failure(stream.cancel_blocking(&mock_ffi), "stream cancel state is indeterminate");
    assert_eq!(mock_ffi.count("venc_cancel_stream"), 0);
}

#[test]
fn stream_cancel_checked_reports_the_sdk_status_or_the_timeout() {
    let mock_ffi = MockVideoHal::new();
    let mut a = VideoStreamHandle::new(1, 2, &mock_ffi).unwrap();
    assert!(matches!(a.begin_cancel(), CancelStart::CallSdk(_)));
    expect_failure(a.finish_cancel_checked(CancelOutcome::Finished(AK_FAILED_I32)), "ak_venc_cancel_stream failed");
    assert_eq!(a.cancel_state(), CancelState::Done);
    assert_eq!(cancel_start_flag(a.begin_cancel()), Some(true));

    let mut b = VideoStreamHandle::new(1, 2, &mock_ffi).unwrap();
    assert!(matches!(b.begin_cancel(), CancelStart::CallSdk(_)));
    expect_failure(b.finish_cancel_checked(CancelOutcome::TimedOut), "ak_venc_cancel_stream timed out");
    assert_eq!(b.cancel_state(), CancelState::Unknown);
    let start = b.begin_cancel();
    assert!(matches!(cancel_start_checked(start), Some(Err(PlatformError::HardwareFailure(_)))));

    assert!(matches!(cancel_start_checked(CancelStart::AlreadyDone), Some(Ok(()))));
    assert!(matches!(cancel_start_checked(CancelStart::NothingToCancel), Some(Ok(()))));
    assert!(cancel_start_checked(CancelStart::CallSdk(9)).is_none());
    assert_eq!(cancel_start_flag(CancelStart::CallSdk(9)), None);
}
