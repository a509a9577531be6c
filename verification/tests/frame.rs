use studigo::frame::Frame;

#[test]
fn test_frame_creation() {
    let frame = Frame::new(640, 480, "test");
    assert_eq!(frame.width, 640);
    assert_eq!(frame.height, 480);
    assert_eq!(frame.data.len(), 640 * 480 * 3);
}

#[test]
fn test_frame_from_data() {
    let data = vec![0u8; 75]; // 5*5*3
    let frame = Frame::from_data(data.clone(), 5, 5, "test");
    assert_eq!(frame.data.len(), 75);
}

#[test]
fn frame_new_is_black_and_named() {
    let frame = Frame::new(2, 1, "cam");
    assert_eq!(frame.data, vec![0u8; 6]);
    assert_eq!(frame.source_id, "cam");
    assert_eq!(frame.size(), 6);
}

#[test]
fn frame_from_data_keeps_bytes() {
    let frame = Frame::from_data(vec![1, 2, 3, 4, 5, 6], 1, 2, "x");
    assert_eq!(frame.data, vec![1, 2, 3, 4, 5, 6]);
    let copy = frame.clone();
    assert_eq!(copy.data, frame.data);
    assert_eq!(copy.source_id, "x");
    assert_eq!(copy.timestamp_us, frame.timestamp_us);
}

#[test]
fn rgb_length_fits_32_bits() {
    assert!(studigo::frame::rgb_len_fits(1920, 1080));
    assert!(studigo::frame::rgb_len_fits(0, u32::MAX));
    assert!(studigo::frame::rgb_len_fits(0x5555_5555, 1));
    assert!(!studigo::frame::rgb_len_fits(0x5555_5556, 1));
    assert!(!studigo::frame::rgb_len_fits(u32::MAX, u32::MAX));
}
