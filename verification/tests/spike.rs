use studigo::spike::capture::{CaptureError, FrameSource, RealUvcSource, HEIGHT, WIDTH};
use studigo::spike::fake_source::FakeUvcSource;
use studigo::spike::usb::hero8_present;

#[test]
fn real_source_reports_unsupported() {
    let mut source = RealUvcSource::new().unwrap();
    match source.next_frame() {
        Err(CaptureError::Unsupported(m)) => {
            assert_eq!(m, "Real UVC capture not fully implemented - use FakeUvcSource")
        }
        other => panic!("unexpected {:?}", other),
    }
}

#[test]
fn fake_uvc_frame_has_bars_over_gray_band() {
    let mut source = FakeUvcSource::new();
    let frame = source.next_frame().unwrap();
    assert_eq!(frame.len(), (WIDTH * HEIGHT * 3) as usize);
    let pixel = |x: usize, y: usize| {
        let i = (y * WIDTH as usize + x) * 3;
        (frame[i], frame[i + 1], frame[i + 2])
    };
    assert_eq!(pixel(0, 0), (255, 255, 255));
    assert_eq!(pixel(239, 755), (255, 255, 255));
    assert_eq!(pixel(240, 10), (255, 255, 0));
    assert_eq!(pixel(1000, 300), (255, 0, 255));
    assert_eq!(pixel(1919, 0), (0, 0, 0));
    assert_eq!(pixel(500, 756), (192, 192, 192));
    assert_eq!(pixel(1919, 1079), (192, 192, 192));
}

#[test]
fn hero8_is_detected_by_ids() {
    assert!(hero8_present(&vec![(0x0ae4, 0x0f01)]));
    assert!(!hero8_present(&vec![(0x0ae4, 0x0001), (0x1111, 0x0f01)]));
    assert!(!hero8_present(&vec![]));
}

#[test]
fn fake_uvc_source_can_capture() {
    let mut source = FakeUvcSource::new();
    assert!(source.can_capture());
    assert!(source.next_frame().is_ok());
    assert!(source.can_capture());
    let real = RealUvcSource::new().unwrap();
    assert!(real.can_capture());
}
