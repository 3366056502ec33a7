use onvif_hal::platform::PlatformError;
use onvif_hal::hal::anyka::ipc::audio::{audio_play_outcome, audio_play_request, AudioPlayStatus};
use onvif_hal::hal::anyka::ipc::imaging::{
    ae_attr_request, bool_request, decode_ae_attr, decode_ae_luma, decode_ae_run_info,
    decode_awb_stat, decode_lum_factor, decode_mwb_attr, i32_request, mwb_attr_request,
    u16_as_i32_request, u8_as_i32_request,
};
use onvif_hal::hal::common::imaging::{AeRunInfo, AE_RUN_INFO_WIRE_LEN, WB_TYPE_AUTO};
use onvif_hal::hal::common::{AK_FAILED_I32, AK_SUCCESS_I32};

#[test]
fn test_get_ae_luma_roundtrip() {
    assert_eq!(decode_ae_luma(AK_SUCCESS_I32, &[42u8]), Some(42));
}

#[test]
fn test_get_ae_luma_error_is_none() {
    assert_eq!(decode_ae_luma(AK_FAILED_I32, &[]), None);
}

#[test]
fn test_get_ae_luma_empty_payload_is_none() {
    assert_eq!(decode_ae_luma(AK_SUCCESS_I32, &[]), None);
}

#[test]
fn test_get_ae_luma_multi_byte_payload_is_none() {
    assert_eq!(decode_ae_luma(AK_SUCCESS_I32, &[42u8, 7u8]), None);
}

#[test]
fn test_get_ae_luma_non_success_status_is_none() {
    assert_eq!(decode_ae_luma(AK_FAILED_I32, &[0u8]), None);
}

#[test]
fn test_get_lum_factor_roundtrip() {
    assert_eq!(decode_lum_factor(AK_SUCCESS_I32, &6400i32.to_le_bytes()), Some(6400));
}

#[test]
fn test_get_lum_factor_negative_is_none_not_daylight() {
    assert_eq!(decode_lum_factor(AK_SUCCESS_I32, &(-1i32).to_le_bytes()), None);
    assert_eq!(decode_lum_factor(AK_SUCCESS_I32, &0i32.to_le_bytes()), None);
}

#[test]
fn test_get_lum_factor_short_payload_is_none() {
    assert_eq!(decode_lum_factor(AK_SUCCESS_I32, &[0u8, 25]), None);
}

#[test]
fn test_get_ae_attr_decodes_gain_and_exposure_ceilings() {
    let mut payload = vec![0u8; 204];
    payload[0..4].copy_from_slice(&2250u32.to_le_bytes());
    payload[24..28].copy_from_slice(&10u32.to_le_bytes());
    payload[40..44].copy_from_slice(&40u32.to_le_bytes());
    let attr = decode_ae_attr(AK_SUCCESS_I32, &payload).expect("attr");
    assert_eq!(attr.exp_time_max, 2250);
    assert_eq!(attr.a_gain_max, 10);
    assert_eq!(attr.target_lumiance, 40);
}

#[test]
fn test_get_ae_attr_wrong_length_is_none() {
    assert_eq!(decode_ae_attr(AK_SUCCESS_I32, &vec![0u8; 200]), None);
}

#[test]
fn test_get_awb_stat_roundtrip() {
    let mut payload = Vec::with_capacity(40);
    let bins: [i32; 10] = [0, 1, 2, 3, 4, 5, 6, 7, 8, 9];
    for b in bins {
        payload.extend_from_slice(&b.to_le_bytes());
    }
    assert_eq!(decode_awb_stat(AK_SUCCESS_I32, &payload), Some(bins));
}

#[test]
fn test_get_awb_stat_all_zero_bins_is_some_not_none() {
    assert_eq!(decode_awb_stat(AK_SUCCESS_I32, &vec![0u8; 40]), Some([0i32; 10]));
}

#[test]
fn test_get_awb_stat_wrong_length_is_none() {
    assert_eq!(decode_awb_stat(AK_SUCCESS_I32, &vec![0u8; 36]), None);
}

#[test]
fn test_get_awb_stat_error_status_is_none() {
    assert_eq!(decode_awb_stat(AK_FAILED_I32, &[]), None);
}

#[test]
fn test_set_wb_type_sends_i32_wire_format() {
    assert_eq!(u16_as_i32_request(WB_TYPE_AUTO), 1i32.to_le_bytes().to_vec());
}

#[test]
fn test_set_mwb_attr_sends_u16_pair_wire_format() {
    let mut expected = Vec::new();
    expected.extend_from_slice(&2u16.to_le_bytes());
    expected.extend_from_slice(&7u16.to_le_bytes());
    assert_eq!(mwb_attr_request(2, 7), expected);
}

#[test]
fn test_get_mwb_attr_decodes_gains_from_raw_struct() {
    let mut payload = vec![0u8; 12];
    payload[0..2].copy_from_slice(&11u16.to_le_bytes());
    payload[2..4].copy_from_slice(&12u16.to_le_bytes());
    payload[4..6].copy_from_slice(&13u16.to_le_bytes());
    assert_eq!(decode_mwb_attr(AK_SUCCESS_I32, &payload), Some((11, 13)));
}

#[test]
fn test_get_mwb_attr_wrong_length_is_none() {
    assert_eq!(decode_mwb_attr(AK_SUCCESS_I32, &vec![0u8; 8]), None);
}

#[test]
fn test_set_ae_attr_sends_both_ceilings_le() {
    let want = [24i32.to_le_bytes(), 2250i32.to_le_bytes()].concat();
    assert_eq!(ae_attr_request(Some(24), Some(2250)), want);
}

#[test]
fn test_set_ae_attr_none_sends_zeros() {
    let req = ae_attr_request(None, None);
    assert_eq!(req.len(), 8);
    assert!(req.iter().all(|&b| b == 0), "both fields left alone");
}

#[test]
fn test_get_ae_run_info_roundtrip() {
    let mut payload = vec![42u8, 40, 1, 0];
    for v in [1000i32, 256, 64, 120] {
        payload.extend_from_slice(&v.to_le_bytes());
    }
    for _ in 0..4 {
        payload.extend_from_slice(&0i32.to_le_bytes());
    }
    assert_eq!(payload.len(), AE_RUN_INFO_WIRE_LEN);
    assert_eq!(
        decode_ae_run_info(AK_SUCCESS_I32, &payload),
        Some(AeRunInfo {
            avg_lumi: 42,
            compensation_lumi: 40,
            darked_flag: 1,
            a_gain: 1000,
            d_gain: 256,
            isp_d_gain: 64,
            exp_time: 120,
        })
    );
}

#[test]
fn test_get_ae_run_info_short_payload_is_none() {
    assert_eq!(decode_ae_run_info(AK_SUCCESS_I32, &vec![0u8; 8]), None);
}

#[test]
fn test_set_ae_mode_encodes_exp_type() {
    assert_eq!(bool_request(true), 1i32.to_le_bytes().to_vec());
    assert_eq!(bool_request(false), 0i32.to_le_bytes().to_vec());
}

#[test]
fn scalar_requests() {
    assert_eq!(i32_request(-3), (-3i32).to_le_bytes().to_vec());
    assert_eq!(u16_as_i32_request(60), 60i32.to_le_bytes().to_vec());
    assert_eq!(u8_as_i32_request(2), 2i32.to_le_bytes().to_vec());
}

#[test]
fn test_audio_play_encodes_wire_and_accepts() {
    let req = audio_play_request("/tmp/a.raw", 8000, 1, 3);
    assert_eq!(&req[0..4], &8000u32.to_le_bytes());
    assert_eq!(&req[4..8], &1u32.to_le_bytes());
    assert_eq!(&req[8..12], &3i32.to_le_bytes());
    let path_len = u32::from_le_bytes(req[12..16].try_into().unwrap());
    assert_eq!(path_len, 11);
    assert_eq!(&req[16..27], b"/tmp/a.raw\0");
    assert_eq!(req.len(), 27);
    assert_ne!(AudioPlayStatus::Accepted, AudioPlayStatus::Busy);
}

#[test]
fn audio_play_outcome_decides_from_the_status() {
    const BUSY: i32 = -7;
    assert_eq!(audio_play_outcome(0, BUSY).unwrap(), AudioPlayStatus::Accepted);
    assert_eq!(audio_play_outcome(BUSY, BUSY).unwrap(), AudioPlayStatus::Busy);
    match audio_play_outcome(-2, BUSY) {
        Err(PlatformError::HardwareUnavailable(m)) => assert!(m.contains("stale")),
        other => panic!("expected HardwareUnavailable, got {:?}", other),
    }
    match audio_play_outcome(-1, BUSY) {
        Err(PlatformError::HardwareFailure(m)) => assert_eq!(m, "CMD_AUDIO_PLAY failed with status -1"),
        other => panic!("expected HardwareFailure, got {:?}", other),
    }
}
