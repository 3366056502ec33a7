use onvif_hal::hal::anyka::ipc::protocol::{
    check_push_status, classify_poll, cmd_name, decode_response_header, decode_video_resolution,
    encode_aenc_attr_buf, encode_audio_param_buf, encode_encode_param_buf, encode_pcm_param_buf,
    encode_request, encode_video_channel_attr_buf, encode_video_dev_type_buf,
    handle_from_response, i32_from_response, ipc_to_frame_type, map_shm_slot_read_error,
    parse_hello_response, shutdown_or, start_push_request, stop_push_request, stream_id_to_wire,
    AttachState, PollVerdict, TieBreaker, CMD_HELLO, CMD_VENC_START_PUSH, CMD_VI_CLOSE,
    CMD_VI_OPEN, EPOCH_DETACHED, MAX_RESPONSE_SIZE, VD_STATUS_STALE_EPOCH,
};
use onvif_hal::hal::common::{
    AencAttr, AudioParam, CropInfo, EncodeParam, PcmParam, VideoChannelAttr, VideoDevType,
    VideoFrameType, VideoResolution,
};
use onvif_hal::platform::common::StreamId;
use onvif_hal::platform::PlatformError;

#[test]
fn test_max_response_size_constant() {
    assert_eq!(MAX_RESPONSE_SIZE, 2 * 1024 * 1024);
}

#[test]
fn test_ipc_frame_type_conversion_p_frame() {
    assert_eq!(ipc_to_frame_type(0), VideoFrameType::FrameTypeP);
}

#[test]
fn test_ipc_frame_type_conversion_i_frame() {
    assert_eq!(ipc_to_frame_type(1), VideoFrameType::FrameTypeI);
}

#[test]
fn test_ipc_frame_type_conversion_b_frame() {
    assert_eq!(ipc_to_frame_type(2), VideoFrameType::FrameTypeB);
}

#[test]
fn test_ipc_frame_type_conversion_pi_frame() {
    assert_eq!(ipc_to_frame_type(3), VideoFrameType::FrameTypePi);
}

#[test]
fn test_ipc_frame_type_conversion_unknown_defaults_to_p() {
    assert_eq!(ipc_to_frame_type(99), VideoFrameType::FrameTypeP);
    assert_eq!(ipc_to_frame_type(-1), VideoFrameType::FrameTypeP);
}

#[test]
fn test_decode_video_resolution_rejects_short_input() {
    let short_data = vec![0u8; 8];
    let result = decode_video_resolution(&short_data);
    assert!(result.is_err());
    match result {
        Err(PlatformError::HardwareFailure(msg)) => {
            assert!(msg.contains("too short"), "unexpected error: {}", msg);
        }
        _ => panic!("Expected HardwareFailure"),
    }
}

#[test]
fn test_decode_video_resolution_parses_valid_data() {
    let mut data = Vec::new();
    data.extend_from_slice(&1920i32.to_le_bytes());
    data.extend_from_slice(&1080i32.to_le_bytes());
    data.extend_from_slice(&1920i32.to_le_bytes());
    data.extend_from_slice(&1080i32.to_le_bytes());
    let res = decode_video_resolution(&data).unwrap();
    assert_eq!(res.width, 1920);
    assert_eq!(res.height, 1080);
    assert_eq!(res.max_width, 1920);
    assert_eq!(res.max_height, 1080);
}

#[test]
fn test_decode_video_resolution_exact_16_bytes() {
    let mut data = Vec::new();
    data.extend_from_slice(&1280i32.to_le_bytes());
    data.extend_from_slice(&720i32.to_le_bytes());
    data.extend_from_slice(&1920i32.to_le_bytes());
    data.extend_from_slice(&1080i32.to_le_bytes());
    assert_eq!(data.len(), 16);
    let res = decode_video_resolution(&data).unwrap();
    assert_eq!(res.width, 1280);
    assert_eq!(res.height, 720);
    assert_eq!(res.max_width, 1920);
    assert_eq!(res.max_height, 1080);
}

#[test]
fn test_decode_video_resolution_extra_bytes_ignored() {
    let mut data = Vec::new();
    data.extend_from_slice(&640i32.to_le_bytes());
    data.extend_from_slice(&480i32.to_le_bytes());
    data.extend_from_slice(&1920i32.to_le_bytes());
    data.extend_from_slice(&1080i32.to_le_bytes());
    data.extend_from_slice(&[0xDE, 0xAD, 0xBE, 0xEF, 0xFF]);
    assert!(data.len() > 16);
    let res = decode_video_resolution(&data).unwrap();
    assert_eq!(res.width, 640);
    assert_eq!(res.height, 480);
}

#[test]
fn test_encode_video_channel_attr_buf_round_trip() {
    let attr = VideoChannelAttr {
        crop: CropInfo { left: 10, top: 20, width: 640, height: 480 },
        res: [
            VideoResolution { width: 1920, height: 1080, max_width: 1920, max_height: 1080 },
            VideoResolution { width: 640, height: 480, max_width: 640, max_height: 480 },
        ],
    };
    let (buf, len) = encode_video_channel_attr_buf(&attr);
    let encoded = &buf[..len];
    assert_eq!(len, 48);
    assert_eq!(i32::from_le_bytes(encoded[0..4].try_into().unwrap()), 10);
    assert_eq!(i32::from_le_bytes(encoded[4..8].try_into().unwrap()), 20);
    assert_eq!(i32::from_le_bytes(encoded[8..12].try_into().unwrap()), 640);
    assert_eq!(i32::from_le_bytes(encoded[12..16].try_into().unwrap()), 480);
    assert_eq!(i32::from_le_bytes(encoded[16..20].try_into().unwrap()), 1920);
    assert_eq!(i32::from_le_bytes(encoded[20..24].try_into().unwrap()), 1080);
    assert_eq!(i32::from_le_bytes(encoded[32..36].try_into().unwrap()), 640);
    assert_eq!(i32::from_le_bytes(encoded[36..40].try_into().unwrap()), 480);
}

#[test]
fn test_encode_encode_param_buf_byte_length() {
    let param = EncodeParam::default();
    let (_buf, len) = encode_encode_param_buf(&param);
    assert_eq!(len, 48);
}

#[test]
fn encode_param_fields_in_order() {
    let mut param = EncodeParam::default();
    param.width = 1920;
    param.bps = 2048;
    param.profile = onvif_hal::hal::common::ProfileMode::PROFILE_HIGH;
    param.enc_out_type = onvif_hal::hal::common::EncodeOutputType::HEVC_ENC_TYPE;
    let (buf, _) = encode_encode_param_buf(&param);
    assert_eq!(u32::from_le_bytes(buf[0..4].try_into().unwrap()), 1920);
    assert_eq!(i32::from_le_bytes(buf[24..28].try_into().unwrap()), 2048);
    assert_eq!(i32::from_le_bytes(buf[28..32].try_into().unwrap()), 1);
    assert_eq!(i32::from_le_bytes(buf[44..48].try_into().unwrap()), 2);
}

#[test]
fn test_encode_pcm_param_buf_values() {
    let param = PcmParam { sample_rate: 8000, sample_bits: 16, channel_num: 1 };
    let (buf, len) = encode_pcm_param_buf(&param);
    let encoded = &buf[..len];
    assert_eq!(len, 12);
    assert_eq!(u32::from_le_bytes(encoded[0..4].try_into().unwrap()), 8000);
    assert_eq!(u32::from_le_bytes(encoded[4..8].try_into().unwrap()), 16);
    assert_eq!(u32::from_le_bytes(encoded[8..12].try_into().unwrap()), 1);
}

#[test]
fn test_encode_audio_param_buf_values() {
    let param = AudioParam { sample_rate: 48000, channel_num: 2, sample_bits: 16, type_: 1 };
    let (buf, len) = encode_audio_param_buf(&param);
    let encoded = &buf[..len];
    assert_eq!(len, 16);
    assert_eq!(u32::from_le_bytes(encoded[0..4].try_into().unwrap()), 48000);
    assert_eq!(u32::from_le_bytes(encoded[4..8].try_into().unwrap()), 2);
    assert_eq!(u32::from_le_bytes(encoded[8..12].try_into().unwrap()), 16);
    assert_eq!(i32::from_le_bytes(encoded[12..16].try_into().unwrap()), 1);
}

#[test]
fn test_encode_aenc_attr_buf_values() {
    let attr = AencAttr { aac_head: 1 };
    let (buf, len) = encode_aenc_attr_buf(&attr);
    assert_eq!(len, 4);
    assert_eq!(&buf[..len], &[1, 0, 0, 0]);
}

#[test]
fn encode_video_dev_type_is_code_zero() {
    let (buf, len) = encode_video_dev_type_buf(VideoDevType::Dev0);
    assert_eq!(len, 4);
    assert_eq!(buf, [0, 0, 0, 0]);
}

#[test]
fn test_map_shm_slot_read_error_not_ready_becomes_resource_busy() {
    let error = PlatformError::InvalidParameter("slot 0 not ready for reading (state: 0)".into());
    let mapped = map_shm_slot_read_error(error, "main");
    match mapped {
        PlatformError::ResourceBusy(msg) => {
            assert!(msg.contains("transient slot race"));
            assert!(msg.contains("main"));
            assert_eq!(
                msg,
                "transient slot race on main channel: slot 0 not ready for reading (state: 0)"
            );
        }
        _ => panic!("expected ResourceBusy"),
    }
}

#[test]
fn test_map_shm_slot_read_error_other_invalid_parameter_passthrough() {
    let error = PlatformError::InvalidParameter("slot index 99 out of range".into());
    let mapped = map_shm_slot_read_error(error, "sub");
    match mapped {
        PlatformError::InvalidParameter(msg) => assert_eq!(msg, "slot index 99 out of range"),
        _ => panic!("expected InvalidParameter"),
    }
}

#[test]
fn map_shm_slot_read_error_keeps_other_variants() {
    match map_shm_slot_read_error(PlatformError::ResourceBusy("not ready for reading".into()), "main") {
        PlatformError::ResourceBusy(m) => assert_eq!(m, "not ready for reading"),
        _ => panic!("expected ResourceBusy unchanged"),
    }
    assert!(matches!(map_shm_slot_read_error(PlatformError::Timeout, "main"), PlatformError::Timeout));
}

#[test]
fn test_choose_ready_channel_single_channel_ready() {
    let mut tie = TieBreaker::new();
    assert_eq!(tie.choose_ready_channel(true, false), Some("main"));
    assert_eq!(tie.choose_ready_channel(false, true), Some("sub"));
    assert_eq!(tie.choose_ready_channel(false, false), None);
}

#[test]
fn test_choose_ready_channel_tie_alternates_between_main_and_sub() {
    let mut tie = TieBreaker::new();
    assert_eq!(tie.choose_ready_channel(true, true), Some("main"));
    assert_eq!(tie.choose_ready_channel(true, true), Some("sub"));
    assert_eq!(tie.choose_ready_channel(true, true), Some("main"));
    assert_eq!(tie.choose_ready_channel(true, true), Some("sub"));
}

#[test]
fn test_start_push_encodes_stream_handle_and_stream_id() {
    let req = start_push_request(0x1234_5678, StreamId::VideoSub);
    assert_eq!(req.len(), 12);
    assert_eq!(u64::from_le_bytes(req[0..8].try_into().unwrap()), 0x1234_5678);
    assert_eq!(u32::from_le_bytes(req[8..12].try_into().unwrap()), 1);
    let frame = encode_request(CMD_VENC_START_PUSH, &req);
    assert_eq!(i32::from_le_bytes(frame[0..4].try_into().unwrap()), CMD_VENC_START_PUSH);
    assert_eq!(u32::from_le_bytes(frame[4..8].try_into().unwrap()), 12);
    assert_eq!(&frame[8..], &req[..]);
}

#[test]
fn test_stop_push_with_stream_id_encodes_payload() {
    assert_eq!(stop_push_request(Some(StreamId::VideoMain)), 0u32.to_le_bytes().to_vec());
}

#[test]
fn test_stop_push_without_stream_id_sends_empty_payload() {
    assert!(stop_push_request(None).is_empty());
}

#[test]
fn stream_ids_on_the_wire() {
    assert_eq!(stream_id_to_wire(StreamId::VideoMain), 0);
    assert_eq!(stream_id_to_wire(StreamId::VideoSub), 1);
    assert_eq!(stream_id_to_wire(StreamId::Audio), 2);
}

#[test]
fn push_status_outcomes() {
    assert!(check_push_status(0, "start_push").is_ok());
    match check_push_status(-1, "start_push") {
        Err(PlatformError::HardwareFailure(m)) => assert_eq!(m, "start_push failed"),
        _ => panic!("expected HardwareFailure"),
    }
}

#[test]
fn request_frame_layout() {
    let frame = encode_request(CMD_VI_CLOSE, &[1, 2, 3]);
    assert_eq!(frame, vec![3, 0, 0, 0, 3, 0, 0, 0, 1, 2, 3]);
    assert_eq!(encode_request(-2, &[]), vec![0xfe, 0xff, 0xff, 0xff, 0, 0, 0, 0]);
}

#[test]
fn response_header_is_bounded() {
    let mut h = [0u8; 8];
    h[0..4].copy_from_slice(&(-1i32).to_le_bytes());
    h[4..8].copy_from_slice(&(MAX_RESPONSE_SIZE as u32).to_le_bytes());
    assert_eq!(decode_response_header(&h).unwrap(), (-1, MAX_RESPONSE_SIZE));
    h[4..8].copy_from_slice(&(MAX_RESPONSE_SIZE as u32 + 1).to_le_bytes());
    match decode_response_header(&h) {
        Err(PlatformError::HardwareFailure(m)) => {
            assert_eq!(m, "IPC response too large: 2097153 bytes (max 2097152)")
        }
        _ => panic!("expected HardwareFailure"),
    }
}

#[test]
fn cmd_names() {
    assert_eq!(cmd_name(CMD_VI_OPEN), "VI_OPEN");
    assert_eq!(cmd_name(CMD_HELLO), "HELLO");
    assert_eq!(cmd_name(105), "ISP_SET_WDR");
    assert_eq!(cmd_name(16), "UNKNOWN");
}

fn hello_response(epoch: u32, version: u32) -> Vec<u8> {
    let mut resp = Vec::with_capacity(8);
    resp.extend_from_slice(&epoch.to_le_bytes());
    resp.extend_from_slice(&version.to_le_bytes());
    resp
}

#[test]
fn hello_parses_epoch_and_version_from_the_daemon() {
    let (epoch, version) = parse_hello_response(0, &hello_response(0x1234_5678, 3)).unwrap();
    assert_eq!(epoch, 0x1234_5678);
    assert_eq!(version, 3);
}

#[test]
fn hello_rejects_a_zero_epoch() {
    let err = parse_hello_response(0, &hello_response(0, 3)).unwrap_err();
    assert!(matches!(err, PlatformError::HardwareUnavailable(_)));
}

#[test]
fn hello_rejections_and_short_answers() {
    match parse_hello_response(-1, &hello_response(5, 3)) {
        Err(PlatformError::HardwareUnavailable(m)) => {
            assert_eq!(m, "vendor daemon rejected CMD_HELLO with status -1")
        }
        _ => panic!("expected HardwareUnavailable"),
    }
    match parse_hello_response(0, &[1, 2, 3]) {
        Err(PlatformError::HardwareFailure(m)) => {
            assert_eq!(m, "CMD_HELLO response too short: 3 bytes (want 8)")
        }
        _ => panic!("expected HardwareFailure"),
    }
}

#[test]
fn stale_handle_status_is_reported_as_unavailable_not_a_generic_failure() {
    let err = handle_from_response(CMD_VI_OPEN, VD_STATUS_STALE_EPOCH, &[0u8; 8]).unwrap_err();
    match err {
        PlatformError::HardwareUnavailable(msg) => {
            assert!(msg.contains("stale"), "message should say stale: {msg}");
            assert_eq!(
                msg,
                "vendor daemon rejected VI_OPEN as a stale handle; the attachment is from a dead generation"
            );
        }
        _ => panic!("expected HardwareUnavailable"),
    }
}

#[test]
fn handle_responses() {
    let resp = 0x0102_0304_0506_0708i64.to_le_bytes();
    assert_eq!(handle_from_response(CMD_VI_OPEN, 0, &resp).unwrap(), 0x0102_0304_0506_0708);
    match handle_from_response(CMD_VI_OPEN, 0, &resp[..7]) {
        Err(PlatformError::HardwareFailure(m)) => assert_eq!(m, "IPC request failed with status: 0"),
        _ => panic!("expected HardwareFailure"),
    }
    match handle_from_response(CMD_VI_OPEN, -1, &resp) {
        Err(PlatformError::HardwareFailure(m)) => assert_eq!(m, "IPC request failed with status: -1"),
        _ => panic!("expected HardwareFailure"),
    }
}

#[test]
fn i32_responses() {
    assert_eq!(i32_from_response(0, &(-7i32).to_le_bytes()), -7);
    assert_eq!(i32_from_response(-1, &[1, 2]), -1);
}

#[test]
fn new_detached_succeeds_without_a_daemon() {
    let state = AttachState::new_detached();
    assert_eq!(state.attached_epoch(), EPOCH_DETACHED);
    assert_eq!(state.observed_epoch(), EPOCH_DETACHED);
}

#[test]
fn request_is_refused_when_detached() {
    let state = AttachState::with_epochs(EPOCH_DETACHED, 0);
    let err = state.epoch_gate(CMD_VI_CLOSE).unwrap_err();
    match err {
        PlatformError::HardwareUnavailable(m) => assert_eq!(m, "not attached to a vendor daemon"),
        _ => panic!("expected HardwareUnavailable"),
    }
}

#[test]
fn request_is_refused_without_writing_when_the_epoch_moved() {
    let state = AttachState::with_epochs(7, 8);
    match state.epoch_gate(CMD_VI_CLOSE) {
        Err(PlatformError::HardwareUnavailable(m)) => assert_eq!(
            m,
            "vendor daemon restarted (attached epoch 7, observed 8); handles from the previous generation are stale"
        ),
        _ => panic!("expected HardwareUnavailable"),
    }
}

#[test]
fn request_passes_when_epochs_agree() {
    let state = AttachState::with_epochs(7, 7);
    assert!(state.epoch_gate(CMD_VI_CLOSE).is_ok());
}

#[test]
fn hello_is_exempt_from_the_gate() {
    let state = AttachState::with_epochs(EPOCH_DETACHED, 0);
    assert!(state.epoch_gate(CMD_HELLO).is_ok());
}

#[test]
fn attach_rejects_a_ring_epoch_that_disagrees_with_hello() {
    let mut state = AttachState::new_detached();
    let err = state.complete_attach(11, 12).unwrap_err();
    assert!(matches!(err, PlatformError::HardwareUnavailable(_)));
    assert_eq!(state.attached_epoch(), EPOCH_DETACHED);
}

#[test]
fn attach_pins_the_epoch_when_hello_and_ring_agree() {
    let mut state = AttachState::new_detached();
    assert_eq!(state.complete_attach(11, 11).unwrap(), 11);
    assert_eq!(state.attached_epoch(), 11);
    assert_eq!(state.observed_epoch(), 11);
    assert!(state.epoch_gate(CMD_VI_CLOSE).is_ok());
}

#[test]
fn detach_clears_every_resource_and_the_epoch() {
    let mut state = AttachState::with_epochs(5, 5);
    state.detach();
    assert_eq!(state.attached_epoch(), EPOCH_DETACHED);
    assert_eq!(state.observed_epoch(), EPOCH_DETACHED);
}

#[test]
fn detach_is_idempotent() {
    let mut state = AttachState::with_epochs(5, 5);
    state.detach();
    state.detach();
    assert_eq!(state.attached_epoch(), EPOCH_DETACHED);
}

#[test]
fn refresh_detects_a_restart() {
    let mut state = AttachState::with_epochs(5, 5);
    assert!(state.refresh_observed_epoch(Some(5)));
    assert!(state.epoch_gate(CMD_VI_CLOSE).is_ok());
    assert!(!state.refresh_observed_epoch(Some(6)));
    assert!(state.epoch_gate(CMD_VI_CLOSE).is_err());
    // An unstamped ring is healthy, but requests are still refused.
    assert!(state.refresh_observed_epoch(Some(0)));
    assert!(state.epoch_gate(CMD_VI_CLOSE).is_err());
    assert!(!state.refresh_observed_epoch(None));
    assert_eq!(state.observed_epoch(), 0);
}

#[test]
fn poll_timeout_is_retryable_unless_shut_down() {
    let mut tie = TieBreaker::new();
    match classify_poll(&mut tie, false, false, false, false, false, false) {
        PollVerdict::Fail(PlatformError::Timeout, false) => {}
        _ => panic!("a live-but-idle daemon must stay retryable"),
    }
    match classify_poll(&mut tie, false, false, false, false, false, true) {
        PollVerdict::Fail(PlatformError::Shutdown(reason), false) => {
            assert!(reason.contains("VD_FLAG_SHUTDOWN"))
        }
        _ => panic!("expected Shutdown once the daemon flags it"),
    }
}

#[test]
fn poll_hangup_reports_peer_loss_unless_shut_down() {
    let mut tie = TieBreaker::new();
    match classify_poll(&mut tie, true, false, false, true, false, false) {
        PollVerdict::Fail(PlatformError::HardwareFailure(m), true) => assert_eq!(
            m,
            "push notification socket disconnected (main_hup_err=true, sub_hup_err=false)"
        ),
        _ => panic!("expected HardwareFailure with peer loss"),
    }
    match classify_poll(&mut tie, true, false, false, false, true, true) {
        PollVerdict::Fail(PlatformError::Shutdown(_), false) => {}
        _ => panic!("an announced shutdown is not peer loss"),
    }
}

#[test]
fn poll_readable_channel_is_read() {
    let mut tie = TieBreaker::new();
    assert!(matches!(classify_poll(&mut tie, true, true, false, false, true, false), PollVerdict::Read("main")));
    assert!(matches!(classify_poll(&mut tie, true, true, true, false, false, false), PollVerdict::Read("main")));
    assert!(matches!(classify_poll(&mut tie, true, true, true, false, false, false), PollVerdict::Read("sub")));
}

#[test]
fn shutdown_replaces_the_fallback() {
    assert!(matches!(shutdown_or(false, PlatformError::Timeout), PlatformError::Timeout));
    match shutdown_or(true, PlatformError::Timeout) {
        PlatformError::Shutdown(m) => assert_eq!(m, "vendor-daemon set VD_FLAG_SHUTDOWN"),
        _ => panic!("expected Shutdown"),
    }
}

#[test]
fn request_header_reads_back_as_a_response_header() {
    let body = [1u8, 2, 3, 4, 5];
    let frame = encode_request(-7, &body);
    let mut header = [0u8; 8];
    header.copy_from_slice(&frame[..8]);
    let (id, len) = decode_response_header(&header).unwrap();
    assert_eq!(id, -7);
    assert_eq!(len, body.len());
    assert_eq!(&frame[8..], &body);
}
