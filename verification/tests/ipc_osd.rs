use onvif_hal::hal::anyka::ipc::osd::{
    decode_osd_init, osd_draw_str_request, osd_init_request, osd_set_enable_request, osd_set_rect_request,
    osd_set_style_request, ChannelDims,
};
use onvif_hal::platform::PlatformError;

/// A glyph limit comfortably above every string used here.
const GLYPH_LIMIT: usize = 64;

#[test]
fn test_osd_draw_str_encodes_glyphs_little_endian() {
    let req = osd_draw_str_request(0, 1, 16, 0, &[0x41, 0x42], GLYPH_LIMIT).unwrap();
    // [i32 chn][i32 rect][i32 x][i32 y][u16 count][u16 glyphs...]
    assert_eq!(&req[16..18], &2u16.to_le_bytes());
    assert_eq!(&req[18..22], &[0x41, 0x00, 0x42, 0x00]);
    assert_eq!(&req[0..16], &[0, 0, 0, 0, 1, 0, 0, 0, 16, 0, 0, 0, 0, 0, 0, 0]);
    assert_eq!(req.len(), 22);
}

#[test]
fn test_osd_set_style_rejects_out_of_range_alpha_before_ipc() {
    assert!(osd_set_style_request(1, 0, 0, 0).is_err());
    assert!(osd_set_style_request(1, 0, 0, 101).is_err());
}

#[test]
fn osd_style_out_of_range_names_every_field() {
    match osd_set_style_request(16, -1, 3, 50) {
        Err(PlatformError::InvalidParameter(msg)) => {
            assert_eq!(msg, "osd_set_style: out of range front=16 bg=-1 edge=3 alpha=50")
        }
        _ => panic!("Expected InvalidParameter error"),
    }
    let req = osd_set_style_request(15, 0, 7, 100).unwrap();
    assert_eq!(req, [15, 0, 0, 0, 0, 0, 0, 0, 7, 0, 0, 0, 100, 0, 0, 0].to_vec());
}

#[test]
fn osd_glyph_count_must_be_within_the_limit() {
    match osd_draw_str_request(0, 0, 0, 0, &[], GLYPH_LIMIT) {
        Err(PlatformError::InvalidParameter(msg)) => assert_eq!(msg, "osd_draw_str: glyph count 0 out of range"),
        _ => panic!("Expected InvalidParameter error"),
    }
    let long = vec![0x30u16; 5];
    match osd_draw_str_request(0, 0, 0, 0, &long, 4) {
        Err(PlatformError::InvalidParameter(msg)) => assert_eq!(msg, "osd_draw_str: glyph count 5 out of range"),
        _ => panic!("Expected InvalidParameter error"),
    }
    let req = osd_draw_str_request(0, 0, 0, 0, &long, 5).unwrap();
    assert_eq!(req.len(), 18 + 10);
    assert_eq!(&req[16..18], &[5, 0]);
    let wide = osd_draw_str_request(-1, 0, 0, 0, &[0x1234], 1).unwrap();
    assert_eq!(&wide[0..4], &[0xff, 0xff, 0xff, 0xff]);
    assert_eq!(&wide[18..20], &[0x34, 0x12]);
}

#[test]
fn osd_init_answer_gives_both_channel_sizes() {
    assert_eq!(osd_init_request(0x1234), 0x1234u64.to_le_bytes().to_vec());
    let mut reply = Vec::new();
    for v in [1280i32, 720, 640, 360] {
        reply.extend_from_slice(&v.to_le_bytes());
    }
    let dims = decode_osd_init(0, &reply).unwrap();
    assert_eq!(dims[0], ChannelDims { width: 1280, height: 720 });
    assert_eq!(dims[1], ChannelDims { width: 640, height: 360 });
    match decode_osd_init(0, &reply[..15]) {
        Err(PlatformError::HardwareFailure(msg)) => assert_eq!(msg, "osd_init: short response (15 bytes)"),
        _ => panic!("Expected HardwareFailure error"),
    }
    match decode_osd_init(-1, &reply) {
        Err(PlatformError::HardwareFailure(msg)) => assert_eq!(msg, "osd_init failed"),
        _ => panic!("Expected HardwareFailure error"),
    }
}

#[test]
fn osd_rect_and_enable_bodies() {
    let rect = osd_set_rect_request(0x10, 1, 2, 3, 4, 5, 6);
    assert_eq!(rect.len(), 32);
    assert_eq!(&rect[0..8], &0x10u64.to_le_bytes());
    assert_eq!(&rect[8..12], &1i32.to_le_bytes());
    assert_eq!(&rect[28..32], &6i32.to_le_bytes());
    assert_eq!(osd_set_enable_request(1, 2, true), [1, 0, 0, 0, 2, 0, 0, 0, 1, 0, 0, 0].to_vec());
    assert_eq!(osd_set_enable_request(1, 2, false), [1, 0, 0, 0, 2, 0, 0, 0, 0, 0, 0, 0].to_vec());
}
