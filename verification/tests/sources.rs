use std::time::Instant;
use studigo::frame::{DEFAULT_HEIGHT, DEFAULT_WIDTH};
use studigo::source_bus::{SourceBus, SourceError, FPS_30_BITS};
use studigo::sources::bluetooth::{BluetoothConfig, BluetoothSource, SourceBus as BluetoothBus};
use studigo::sources::fake::{FakeSource, FakeSourceConfig};
use studigo::sources::screen::{ScreenCaptureConfig, ScreenCaptureSource, ScreenFrameInput};
use studigo::sources::uvc::{detect_gopro_usb, find_gopro_camera, UvcConfig, UvcSource};
use studigo::sources::wifi::{WifiConfig, WifiSource};

#[test]
fn test_bluetooth_source_creation() {
    let source = BluetoothSource::new();
    assert!(!source.is_connected());
}

#[test]
fn test_bluetooth_source_with_config() {
    let config = BluetoothConfig { device_address: Some("AA:BB:CC:DD:EE:FF".to_string()), scan_timeout_secs: 5 };
    let source = BluetoothSource::with_config(config);
    assert!(!source.is_connected());
}

#[test]
fn test_bluetooth_source_disconnect() {
    let mut source = BluetoothSource::new();
    let result = source.disconnect();
    assert!(result.is_ok());
}

#[test]
fn test_bluetooth_source_next_frame_not_connected() {
    let mut source = BluetoothSource::new();
    let result = source.next_frame();
    assert!(result.is_err());
}

#[test]
fn test_bluetooth_scan_devices() {
    let source = BluetoothSource::new();
    let result = source.scan_devices();
    assert!(result.is_ok());
}

#[test]
fn bluetooth_connect_needs_an_address() {
    let mut source = BluetoothSource::default();
    match source.connect() {
        Err(SourceError::Message(m)) => assert_eq!(m, "No Bluetooth devices found"),
        other => panic!("unexpected {:?}", other),
    }
    assert!(!source.is_connected());
    match source.send_command(&[1]) {
        Err(SourceError::Message(m)) => assert_eq!(m, "Not connected to any device"),
        other => panic!("unexpected {:?}", other),
    }
    match source.get_battery_status() {
        Err(SourceError::Message(m)) => assert_eq!(m, "Not connected to any device"),
        other => panic!("unexpected {:?}", other),
    }
    match BluetoothBus::next_frame(&mut source) {
        Err(SourceError::Message(m)) => assert_eq!(m, "Not connected to Bluetooth source. Call connect() first."),
        other => panic!("unexpected {:?}", other),
    }

    let mut source = BluetoothSource::with_config(BluetoothConfig {
        device_address: Some("AA:BB".to_string()),
        scan_timeout_secs: 5,
    });
    source.connect().unwrap();
    assert!(source.is_connected());
    assert!(source.send_command(&[1, 2]).is_ok());
    assert_eq!(source.get_battery_status().unwrap(), 0);
    assert_eq!(source.next_frame().unwrap(), Vec::<u8>::new());
    source.disconnect().unwrap();
    assert!(!source.is_connected());
    assert!(source.connect().is_err());
    source.connect_to_device("CC:DD".to_string()).unwrap();
    assert!(source.is_connected());
}

#[test]
fn test_wifi_source_creation() {
    let source = WifiSource::new();
    assert!(!source.is_connected());
}

#[test]
fn test_wifi_source_with_config() {
    let config = WifiConfig { camera_ip: "192.168.1.100".to_string(), rtsp_port: 8554, stream_path: "/live".to_string() };
    let source = WifiSource::with_config(config);
    assert!(!source.is_connected());
}

#[test]
fn test_wifi_source_disconnect() {
    let mut source = WifiSource::new();
    // Disconnect should work even when not connected
    let result = source.disconnect();
    assert!(result.is_ok());
}

#[test]
fn test_wifi_source_next_frame_not_connected() {
    let mut source = WifiSource::new();
    let result = source.next_frame();
    assert!(result.is_err());
}

#[test]
fn wifi_addresses_and_connection_outcome() {
    let mut source = WifiSource::default();
    assert_eq!(source.rtsp_url(), "rtsp://10.5.5.1:8554/live");
    assert_eq!(source.server_address(), "10.5.5.1:8554");
    match source.complete_connect(false) {
        Err(SourceError::Message(m)) => {
            assert_eq!(m, "Failed to connect to GoPro RTSP server at 10.5.5.1:8554")
        }
        other => panic!("unexpected {:?}", other),
    }
    assert!(!source.is_connected());
    assert!(source.frame_metadata().is_none());
    source.complete_connect(true).unwrap();
    assert!(source.is_connected());
    assert_eq!(source.next_frame().unwrap().len(), 0);
    let meta = source.frame_metadata().unwrap();
    assert_eq!((meta.width, meta.height), (1920, 1080));
    assert_eq!(f32::from_bits(meta.fps_bits), 30.0);
}

#[test]
fn test_fake_source_creation() {
    let source = FakeSource::new();
    assert!(!source.is_connected());
}

#[test]
fn test_fake_source_connect() {
    let mut source = FakeSource::new();
    source.connect().unwrap();
    assert!(source.is_connected());
}

#[test]
fn test_fake_source_disconnect() {
    let mut source = FakeSource::new();
    source.connect().unwrap();
    source.disconnect().unwrap();
    assert!(!source.is_connected());
}

#[test]
fn test_fake_source_next_frame() {
    let mut source = FakeSource::new();
    source.connect().unwrap();

    let frame = source.next_frame().unwrap();
    let expected_size = DEFAULT_WIDTH * DEFAULT_HEIGHT * 3;
    assert_eq!(frame.len() as u32, expected_size);
}

#[test]
fn test_fake_source_frame_rate() {
    let mut source = FakeSource::with_config(FakeSourceConfig {
        width: 320,
        height: 240,
        fps_bits: 30.0f32.to_bits(),
        source_id: "test".to_string(),
    });
    source.connect().unwrap();

    let start = Instant::now();
    let mut frames = 0;

    // Generate 60 frames and measure time
    while frames < 60 {
        source.next_frame().unwrap();
        frames += 1;
    }

    let elapsed = start.elapsed();
    let fps = frames as f32 / elapsed.as_secs_f32();

    // Should be close to 30 fps (allow wide tolerance for fast machines)
    assert!(fps > 10.0 && fps < 1500.0, "FPS {} is outside expected range", fps);
}

#[test]
fn test_fake_source_frame_metadata() {
    let mut source = FakeSource::new();
    source.connect().unwrap();

    let meta = source.frame_metadata().unwrap();
    assert_eq!(meta.width, DEFAULT_WIDTH);
    assert_eq!(meta.height, DEFAULT_HEIGHT);
}

#[test]
fn fake_source_draws_color_bars() {
    let mut source = FakeSource::with_config(FakeSourceConfig {
        width: 16,
        height: 2,
        fps_bits: FPS_30_BITS,
        source_id: "bars".to_string(),
    });
    match source.next_frame() {
        Err(SourceError::Message(m)) => assert_eq!(m, "FakeSource not connected"),
        other => panic!("unexpected {:?}", other),
    }
    assert!(source.can_capture());
    source.connect().unwrap();
    let frame = source.next_frame().unwrap();
    assert_eq!(frame.len(), 16 * 2 * 3);
    let pixel = |x: usize, y: usize| (frame[(y * 16 + x) * 3], frame[(y * 16 + x) * 3 + 1], frame[(y * 16 + x) * 3 + 2]);
    assert_eq!(pixel(0, 0), (255, 255, 255));
    assert_eq!(pixel(2, 0), (255, 255, 0));
    assert_eq!(pixel(5, 1), (0, 255, 255));
    assert_eq!(pixel(9, 1), (255, 0, 255));
    assert_eq!(pixel(15, 0), (0, 0, 0));
    assert_eq!(f32::from_bits(FPS_30_BITS), 30.0);
}

#[test]
fn test_screen_source_creation() {
    let source = ScreenCaptureSource::new();
    assert!(!source.is_connected());
}

#[test]
fn test_screen_source_connect() {
    let mut source = ScreenCaptureSource::new();
    source.connect().unwrap();
    assert!(source.is_connected());
}

#[test]
fn test_screen_source_disconnect() {
    let mut source = ScreenCaptureSource::new();
    source.connect().unwrap();
    source.disconnect().unwrap();
    assert!(!source.is_connected());
}

#[test]
fn test_screen_source_next_frame_not_connected() {
    let mut source = ScreenCaptureSource::new();
    let result = source.next_frame();
    assert!(result.is_err());
}

#[test]
fn test_screen_source_next_frame_connected() {
    let mut source = ScreenCaptureSource::new();
    source.connect().unwrap();

    let frame = source.next_frame().unwrap();
    // Should return empty/zero frame when no data from frontend
    assert!(!frame.is_empty());
}

#[test]
fn test_screen_source_with_config() {
    let config = ScreenCaptureConfig {
        source_id: "test-screen".to_string(),
        width: 1280,
        height: 720,
        fps_bits: 60.0f32.to_bits(),
    };
    let source = ScreenCaptureSource::with_config(config);

    let meta = source.frame_metadata().unwrap();
    assert_eq!(meta.width, 1280);
    assert_eq!(meta.height, 720);
    assert_eq!(f32::from_bits(meta.fps_bits), 60.0);
}

#[test]
fn screen_frame_is_delivered_once() {
    let mut source = ScreenCaptureSource::with_config(ScreenCaptureConfig {
        source_id: "s".to_string(),
        width: 2,
        height: 1,
        fps_bits: FPS_30_BITS,
    });
    source.connect().unwrap();
    source.receive_frame(ScreenFrameInput { data: vec![5, 6, 7], width: 1, height: 1 });
    assert_eq!(source.frame_buffer().width, 1);
    assert_eq!(source.next_frame().unwrap(), vec![5, 6, 7]);
    assert_eq!(source.next_frame().unwrap(), vec![0u8; 6]);
    source.receive_frame(ScreenFrameInput { data: vec![1], width: 1, height: 1 });
    source.disconnect().unwrap();
    assert!(source.frame_buffer().data.is_none());
}

#[test]
fn test_uvc_source_creation() {
    let source = UvcSource::new();
    assert!(!source.is_connected());
}

#[test]
fn test_uvc_source_with_config() {
    let config = UvcConfig { camera_index: 0, width: 640, height: 480, fps: 30, source_id: "test-uvc".to_string() };
    let source = UvcSource::with_config(config);
    assert!(!source.is_connected());
}

#[test]
fn test_uvc_source_with_index() {
    let source = UvcSource::with_index(1);
    assert!(!source.is_connected());
}

#[test]
fn test_uvc_source_disconnect_not_connected() {
    let mut source = UvcSource::new();
    // Disconnect should work even when not connected
    let result = source.disconnect();
    assert!(result.is_ok());
}

#[test]
fn test_uvc_source_next_frame_not_connected() {
    let source = UvcSource::new();
    let result = source.begin_capture();
    assert!(result.is_err());
}

#[test]
fn uvc_records_frames_while_connected() {
    let mut source = UvcSource::with_index(3);
    assert_eq!(source.config().camera_index, 3);
    assert_eq!(source.config().source_id, "gopro-uvc");
    source.complete_connect();
    assert!(source.begin_capture().is_ok());
    let data = source.record_frame(vec![1, 2, 3], 1, 1, 30.0f32.to_bits());
    assert_eq!(data, vec![1, 2, 3]);
    let meta = source.frame_metadata().unwrap();
    assert_eq!((meta.width, meta.height), (1, 1));
    source.disconnect().unwrap();
    assert!(source.frame_metadata().is_none());
    match source.begin_capture() {
        Err(SourceError::Message(m)) => assert_eq!(m, "UVC source not connected. Call connect() first."),
        other => panic!("unexpected {:?}", other),
    }
}

#[test]
fn gopro_camera_is_found_by_name() {
    let cameras = vec![
        ("Integrated Webcam".to_string(), Some(0)),
        ("GoPro HERO8 Black".to_string(), None),
        ("GOPRO Webcam".to_string(), Some(2)),
        ("Hero Cam".to_string(), Some(3)),
    ];
    assert_eq!(find_gopro_camera(&cameras), Some(2));
    assert_eq!(find_gopro_camera(&vec![("Webcam".to_string(), Some(1))]), None);
    assert!(detect_gopro_usb(&vec![(0x1234, 1), (0x0ae4, 0x0f01)]));
    assert!(!detect_gopro_usb(&vec![(0x1234, 1)]));
}

#[test]
fn bluetooth_connect_disconnect_connect_fails() {
    let mut source = BluetoothSource::with_config(BluetoothConfig {
        device_address: Some("AA:BB:CC:DD:EE:FF".to_string()),
        scan_timeout_secs: 5,
    });
    source.connect().unwrap();
    assert!(source.is_connected());
    assert!(source.send_command(&[1, 2]).is_ok());
    assert_eq!(source.get_battery_status().unwrap(), 0);
    source.disconnect().unwrap();
    assert!(source.connect().is_err());
    assert!(!source.is_connected());
}

#[test]
fn wifi_and_screen_not_connected_messages() {
    let mut wifi = WifiSource::default();
    match wifi.next_frame() {
        Err(SourceError::Message(m)) => assert_eq!(m, "Not connected to WiFi source. Call connect() first."),
        other => panic!("unexpected {:?}", other),
    }
    let mut screen = ScreenCaptureSource::default();
    match screen.next_frame() {
        Err(SourceError::Message(m)) => assert_eq!(m, "ScreenCaptureSource not connected"),
        other => panic!("unexpected {:?}", other),
    }
    assert!(screen.can_capture());
    let big = ScreenCaptureSource::with_config(ScreenCaptureConfig {
        width: 65536,
        height: 65536,
        ..ScreenCaptureConfig::default()
    });
    assert!(!big.can_capture());
}
