use onvif_hal::hal::common::imaging::{check_power_hz, check_style_id};
use onvif_hal::platform::PlatformError;

#[test]
fn power_hz_accepts_only_mains_frequencies() {
    assert!(check_power_hz(50).is_ok());
    assert!(check_power_hz(60).is_ok());
    for hz in [0u16, 49, 51, 59, 61, 65535] {
        match check_power_hz(hz) {
            Err(PlatformError::InvalidParameter(msg)) => {
                assert_eq!(msg, format!("power_hz must be 50 or 60 (got {})", hz))
            }
            _ => panic!("Expected InvalidParameter error"),
        }
    }
}

#[test]
fn style_id_accepts_zero_to_two() {
    for id in 0u8..=2 {
        assert!(check_style_id(id).is_ok());
    }
    match check_style_id(3) {
        Err(PlatformError::InvalidParameter(msg)) => assert_eq!(msg, "style_id must be 0-2 (got 3)"),
        _ => panic!("Expected InvalidParameter error"),
    }
    match check_style_id(255) {
        Err(PlatformError::InvalidParameter(msg)) => assert_eq!(msg, "style_id must be 0-2 (got 255)"),
        _ => panic!("Expected InvalidParameter error"),
    }
}
