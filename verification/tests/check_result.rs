use onvif_hal::hal::common::{check_result, AK_FAILED_I32, AK_SUCCESS_I32};
use onvif_hal::platform::PlatformError;

fn assert_failed(result: Result<(), PlatformError>) {
    assert!(result.is_err());
    match result {
        Err(PlatformError::HardwareFailure(msg)) => {
            assert!(msg.contains("test_function"));
            assert!(msg.contains("failed"));
        }
        _ => panic!("Expected HardwareFailure error"),
    }
}

fn assert_unknown(result: Result<(), PlatformError>) {
    assert!(result.is_err());
    match result {
        Err(PlatformError::HardwareFailure(msg)) => {
            assert!(msg.contains("test_function"));
            assert!(msg.contains("error code -42"));
        }
        _ => panic!("Expected HardwareFailure error"),
    }
}

#[test]
fn mod_test_check_result_success() {
    assert!(check_result(AK_SUCCESS_I32, "test_function").is_ok());
}

#[test]
fn mod_test_check_result_failed() {
    assert_failed(check_result(AK_FAILED_I32, "test_function"));
}

#[test]
fn mod_test_check_result_unknown_error() {
    assert_unknown(check_result(-42, "test_function"));
}

#[test]
fn audio_test_check_result_success() {
    assert!(check_result(AK_SUCCESS_I32, "test_function").is_ok());
}

#[test]
fn audio_test_check_result_failed() {
    assert_failed(check_result(AK_FAILED_I32, "test_function"));
}

#[test]
fn ptz_test_check_result_success() {
    assert!(check_result(AK_SUCCESS_I32, "test_function").is_ok());
}

#[test]
fn ptz_test_check_result_failed() {
    assert_failed(check_result(AK_FAILED_I32, "test_function"));
}

#[test]
fn ptz_test_check_result_unknown_error() {
    assert_unknown(check_result(-42, "test_function"));
}

#[test]
fn imaging_test_check_result_success() {
    assert!(check_result(AK_SUCCESS_I32, "test_function").is_ok());
}

#[test]
fn imaging_test_check_result_failed() {
    assert_failed(check_result(AK_FAILED_I32, "test_function"));
}

#[test]
fn video_test_check_result_success() {
    assert!(check_result(AK_SUCCESS_I32, "test_function").is_ok());
}

#[test]
fn video_test_check_result_failed() {
    assert_failed(check_result(AK_FAILED_I32, "test_function"));
}

#[test]
fn video_test_check_result_unknown_error() {
    assert_unknown(check_result(-42, "test_function"));
}

#[test]
fn check_result_messages_are_exact() {
    match check_result(-1, "ak_vi_open") {
        Err(PlatformError::HardwareFailure(m)) => assert_eq!(m, "ak_vi_open failed"),
        _ => panic!("expected HardwareFailure"),
    }
    match check_result(7, "ak_vi_open") {
        Err(PlatformError::HardwareFailure(m)) => assert_eq!(m, "ak_vi_open: error code 7"),
        _ => panic!("expected HardwareFailure"),
    }
    match check_result(i32::MIN, "x") {
        Err(PlatformError::HardwareFailure(m)) => assert_eq!(m, "x: error code -2147483648"),
        _ => panic!("expected HardwareFailure"),
    }
}
