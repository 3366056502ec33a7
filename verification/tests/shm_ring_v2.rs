use onvif_hal::hal::shm_ring::{
    FrameNotification, RingHeader, ShmRingReader, SlotHeader, VD_FLAG_OVERFLOW, VD_FLAG_SHUTDOWN,
    VD_SHM_HEADER_SIZE, VD_SHM_MAGIC, VD_SHM_SLOT_COUNT, VD_SHM_SLOT_DATA_SIZE,
    VD_SHM_SLOT_HDR_SIZE, VD_SHM_SLOT_SIZE, VD_SHM_TOTAL_SIZE, VD_SHM_VERSION, VD_SLOT_EMPTY,
    VD_SLOT_READY,
};
use onvif_hal::platform::frame::FrameType;
use onvif_hal::platform::PlatformError;

fn header() -> RingHeader {
    RingHeader {
        magic: VD_SHM_MAGIC,
        version: VD_SHM_VERSION,
        total_size: VD_SHM_TOTAL_SIZE as u32,
        slot_count: VD_SHM_SLOT_COUNT,
        slot_data_size: VD_SHM_SLOT_DATA_SIZE as u32,
        write_seq: 0,
        read_seq: 0,
        flags: 0,
        overflow_count: 0,
        eviction_count: 0,
        socket_fallback_count: 0,
        dropped_count: 0,
        _padding: [0u8; 16],
    }
}

fn image(h: RingHeader) -> Vec<u8> {
    let mut image = vec![0u8; VD_SHM_TOTAL_SIZE];
    image[..VD_SHM_HEADER_SIZE].copy_from_slice(&h.to_bytes());
    image
}

fn put_slot(image: &mut [u8], slot_index: usize, frame_len: u32, timestamp_us: u64, seq_no: u32, data: &[u8]) {
    let offset = VD_SHM_HEADER_SIZE + slot_index * VD_SHM_SLOT_SIZE;
    let slot = SlotHeader {
        state: VD_SLOT_READY,
        frame_len,
        timestamp_us,
        seq_no,
        frame_type: 1,
        stream_id: 0,
        checksum: 0,
        wall_clock_us: 0,
        inter_frame_us: 0,
        _reserved: 0,
        _padding: [0u8; 16],
    };
    image[offset..offset + VD_SHM_SLOT_HDR_SIZE].copy_from_slice(&slot.to_bytes());
    image[offset + VD_SHM_SLOT_HDR_SIZE..offset + VD_SHM_SLOT_HDR_SIZE + data.len()].copy_from_slice(data);
}

#[test]
fn v2_frame_notification_from_bytes() {
    let bytes: [u8; 12] = [0x03, 0, 0, 0, 0x80, 0x10, 0, 0, 0x01, 0, 0, 0];
    let notif = FrameNotification::from_bytes(&bytes);
    assert_eq!(notif.slot_index, 3);
    assert_eq!(notif.frame_len, 4224);
    assert!(notif.is_last_fragment());
    assert!(!notif.is_socket_fallback());
}

#[test]
fn v2_frame_notification_socket_fallback() {
    let bytes: [u8; 12] = [0, 0, 0, 0, 0, 0, 0, 0, 0x02, 0, 0, 0];
    let notif = FrameNotification::from_bytes(&bytes);
    assert!(notif.is_socket_fallback());
    assert!(!notif.is_last_fragment());
}

#[test]
fn v2_header_sizes() {
    assert_eq!(std::mem::size_of::<RingHeader>(), VD_SHM_HEADER_SIZE);
    assert_eq!(std::mem::size_of::<SlotHeader>(), VD_SHM_SLOT_HDR_SIZE);
    assert_eq!(std::mem::size_of::<FrameNotification>(), 12);
    assert_eq!(VD_SHM_HEADER_SIZE, 64);
    assert_eq!(VD_SHM_SLOT_HDR_SIZE, 64);
    assert_eq!(VD_SHM_SLOT_DATA_SIZE, VD_SHM_SLOT_SIZE - VD_SHM_SLOT_HDR_SIZE);
    assert_eq!(VD_SHM_TOTAL_SIZE, VD_SHM_HEADER_SIZE + (VD_SHM_SLOT_COUNT as usize) * VD_SHM_SLOT_SIZE);
}

#[test]
fn test_shutdown_flag() {
    let mut reader = ShmRingReader::open(Some(image(header()))).unwrap().unwrap();
    assert!(!reader.is_shutdown());
    reader.apply_producer_word(28, VD_FLAG_SHUTDOWN);
    assert!(reader.is_shutdown());
}

#[test]
fn test_overflow_flag() {
    let mut reader = ShmRingReader::open(Some(image(header()))).unwrap().unwrap();
    assert!(!reader.has_overflow());
    reader.apply_producer_word(28, VD_FLAG_OVERFLOW);
    assert!(reader.has_overflow());
}

#[test]
fn v2_release_advances_the_reader_counter() {
    let mut h = header();
    h.write_seq = 3;
    let mut img = image(h);
    put_slot(&mut img, 0, 5, 2_500_000, 7, b"frame");
    let mut reader = ShmRingReader::open(Some(img)).unwrap().unwrap();
    assert_eq!(reader.available_frames(), 1);
    let (meta, buf) = reader.read_slot_into_bytesmut(0).unwrap();
    assert_eq!(meta.timestamp_ms, 2500);
    assert_eq!(meta.seq_no, 7);
    assert_eq!(meta.frame_type, FrameType::VideoIFrame);
    assert_eq!(buf.as_ref(), b"frame");
    assert_eq!(reader.read_seq(), 1);
    assert_eq!(reader.available_frames(), 0);
    match reader.release_slot(0) {
        Err(PlatformError::HardwareFailure(m)) => {
            assert_eq!(m, format!("failed to release slot 0: expected state 3, got {}", VD_SLOT_EMPTY))
        }
        _ => panic!("expected HardwareFailure"),
    }
}

#[test]
fn v2_available_frames_counts_ready_slots() {
    let mut h = header();
    h.write_seq = 1;
    h.read_seq = 2;
    let reader = ShmRingReader::open(Some(image(h))).unwrap().unwrap();
    assert_eq!(reader.available_frames(), 0);

    let mut h = header();
    h.write_seq = 2;
    let mut img = image(h);
    put_slot(&mut img, 1, 3, 1000, 1, b"abc");
    put_slot(&mut img, 6, 2, 2000, 2, b"de");
    let mut reader = ShmRingReader::open(Some(img)).unwrap().unwrap();
    assert_eq!(reader.available_frames(), 2);
    // A slot this reader has leased is no longer READY, though write_seq is ahead.
    let frame_len = reader.read_slot(1).unwrap().data.len();
    assert_eq!(frame_len, 3);
    assert_eq!(reader.write_seq(), 2);
    assert_eq!(reader.available_frames(), 1);
}

#[test]
fn v2_read_seq_counts_only_this_readers_releases() {
    let mut h = header();
    h.write_seq = 7;
    h.read_seq = 5;
    let mut img = image(h);
    put_slot(&mut img, 2, 1, 10, 1, b"x");
    put_slot(&mut img, 3, 1, 20, 2, b"y");
    let mut reader = ShmRingReader::open(Some(img)).unwrap().unwrap();
    assert_eq!(reader.read_seq(), 5);
    reader.read_slot_into_bytesmut(2).unwrap();
    // The daemon rewrites the shared read_seq; the reader's counter is its own.
    reader.apply_producer_word(24, 100);
    assert_eq!(reader.read_seq(), 6);
    reader.read_slot_into_bytesmut(3).unwrap();
    assert_eq!(reader.read_seq(), 7);
    assert!(reader.release_slot(3).is_err());
    assert_eq!(reader.read_seq(), 7);
}

#[test]
fn v2_bytesmut_read_of_a_slot_that_is_not_ready_names_its_state() {
    let mut reader = ShmRingReader::open(Some(image(header()))).unwrap().unwrap();
    match reader.read_slot_into_bytesmut(4) {
        Err(PlatformError::InvalidParameter(m)) => {
            assert_eq!(m, format!("slot 4 not ready for reading (state: {})", VD_SLOT_EMPTY))
        }
        _ => panic!("expected InvalidParameter"),
    }
    assert_eq!(reader.read_seq(), 0);
}
