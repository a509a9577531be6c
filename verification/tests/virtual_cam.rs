use studigo::output::virtual_cam::{
    FilterState, IAMStreamConfig, IAMVideoProcAmp, IKsPropertySet, MediaType, VideoFormat, VideoProcAmpFlags,
    VideoProcAmpProperty, VirtualCamError, VirtualCamFilter, VirtualCamFrame, VirtualCamManager, DEFAULT_HEIGHT,
    DEFAULT_WIDTH, VIRTUAL_CAM_NAME,
};

#[test]
fn test_virtual_cam_filter_creation() {
    let filter = VirtualCamFilter::new();
    assert_eq!(filter.name(), VIRTUAL_CAM_NAME);
    assert_eq!(filter.get_state(), FilterState::Stopped);
}

#[test]
fn test_virtual_cam_filter_with_format() {
    let format = VideoFormat { width: 1280, height: 720, fps: 60, media_type: MediaType::RGB24 };
    let mut filter = VirtualCamFilter::with_format(format);

    let iam = filter.iam_stream_config();
    let current = iam.get_format().unwrap();
    assert_eq!(current.width, 1280);
    assert_eq!(current.height, 720);
}

#[test]
fn test_virtual_cam_frame_push_pop() {
    let mut filter = VirtualCamFilter::new();

    let frame = VirtualCamFrame::new(1920, 1080);
    filter.push_frame(frame).unwrap();

    assert!(filter.has_frame());

    let frame = filter.pop_frame();
    assert!(frame.is_some());
    assert!(!filter.has_frame());
}

#[test]
fn test_iam_stream_config() {
    let mut filter = VirtualCamFilter::new();
    let mut iam = filter.iam_stream_config();

    // Test get format
    let format = iam.get_format().unwrap();
    assert_eq!(format.width, DEFAULT_WIDTH);
    assert_eq!(format.height, DEFAULT_HEIGHT);

    // Test set format
    let new_format = VideoFormat { width: 1280, height: 720, fps: 30, media_type: MediaType::RGB24 };
    iam.set_format(new_format.clone()).unwrap();

    let current = iam.get_format().unwrap();
    assert_eq!(current.width, 1280);
    assert_eq!(current.height, 720);

    // Test capabilities
    let count = iam.get_capabilities_count().unwrap();
    assert!(count > 0);

    let cap = iam.get_capability(0).unwrap();
    assert_eq!(cap.width, 640);
}

#[test]
fn test_iam_video_proc_amp() {
    let mut filter = VirtualCamFilter::new();
    let mut iam = filter.iam_video_proc_amp();

    // Test get range
    let (min, max, default, _step) = iam.get_range(VideoProcAmpProperty::Brightness).unwrap();
    assert_eq!(min, 0);
    assert_eq!(max, 255);
    assert_eq!(default, 128);

    // Test get and set
    let brightness = iam.get(VideoProcAmpProperty::Brightness).unwrap();
    assert_eq!(brightness, 128);

    iam.set(VideoProcAmpProperty::Brightness, 100, VideoProcAmpFlags::Manual).unwrap();

    let brightness = iam.get(VideoProcAmpProperty::Brightness).unwrap();
    assert_eq!(brightness, 100);
}

#[test]
fn test_virtual_cam_manager() {
    let mut manager = VirtualCamManager::new();

    // Get default filter
    let filter = manager.get_default_filter();
    assert_eq!(filter.name(), VIRTUAL_CAM_NAME);
    filter.start().unwrap();

    // Get same filter again: it is the one started above
    let filter2 = manager.get_default_filter();
    assert_eq!(filter2.get_state(), FilterState::Running);
}

#[test]
fn test_frame_dimensions_mismatch() {
    let format = VideoFormat { width: 1280, height: 720, fps: 30, media_type: MediaType::RGB24 };
    let mut filter = VirtualCamFilter::with_format(format);

    // Try to push a frame with wrong dimensions
    let frame = VirtualCamFrame::new(1920, 1080);
    let result = filter.push_frame(frame);

    assert!(result.is_err());
}

#[test]
fn mismatch_message_names_both_sizes() {
    let mut filter = VirtualCamFilter::with_format(VideoFormat {
        width: 1280,
        height: 720,
        fps: 30,
        media_type: MediaType::RGB24,
    });
    match filter.push_frame(VirtualCamFrame::from_data(vec![], 4, 3)) {
        Err(VirtualCamError::InvalidFormat(m)) => {
            assert_eq!(m, "Frame dimensions 4x3 do not match filter format 1280x720")
        }
        other => panic!("unexpected {:?}", other),
    }
    assert!(!filter.has_frame());
}

#[test]
fn pushed_frame_is_popped_unchanged() {
    let mut filter = VirtualCamFilter::with_format(VideoFormat { width: 1, height: 2, fps: 30, media_type: MediaType::MJPEG });
    let frame = VirtualCamFrame::from_data(vec![1, 2, 3, 4, 5, 6], 1, 2);
    let ts = frame.timestamp_us;
    filter.push_frame(frame).unwrap();
    let popped = filter.pop_frame().unwrap();
    assert_eq!(popped.data, vec![1, 2, 3, 4, 5, 6]);
    assert_eq!(popped.timestamp_us, ts);
    assert!(filter.pop_frame().is_none());
}

#[test]
fn start_stop_pause_state_machine() {
    let mut filter = VirtualCamFilter::default();
    assert!(matches!(filter.stop(), Err(VirtualCamError::NotRunning)));
    filter.pause().unwrap();
    assert_eq!(filter.get_state(), FilterState::Paused);
    filter.pause().unwrap();
    assert_eq!(filter.get_state(), FilterState::Paused);
    filter.start().unwrap();
    assert_eq!(filter.get_state(), FilterState::Running);
    assert!(matches!(filter.start(), Err(VirtualCamError::AlreadyRunning)));
    filter.pause().unwrap();
    assert_eq!(filter.get_state(), FilterState::Running);
    filter.stop().unwrap();
    assert_eq!(filter.get_state(), FilterState::Stopped);
}

#[test]
fn zero_sized_format_is_refused() {
    let mut filter = VirtualCamFilter::new();
    let bad = VideoFormat { width: 0, height: 720, fps: 30, media_type: MediaType::RGB24 };
    match filter.set_format(bad) {
        Err(VirtualCamError::InvalidFormat(m)) => assert_eq!(m, "Invalid dimensions"),
        other => panic!("unexpected {:?}", other),
    }
    let mut iam = filter.iam_stream_config();
    assert!(iam.set_format(bad).is_err());
    assert_eq!(iam.get_format().unwrap(), VideoFormat::default());
}

#[test]
fn capabilities_are_listed_in_order() {
    let mut filter = VirtualCamFilter::new();
    let iam = filter.iam_stream_config();
    assert_eq!(iam.get_capabilities_count().unwrap(), 4);
    let widths: Vec<u32> = (0..4).map(|i| iam.get_capability(i).unwrap().width).collect();
    assert_eq!(widths, vec![640, 1280, 1920, 2560]);
    assert_eq!(iam.get_capability(3).unwrap().height, 1440);
    match iam.get_capability(4) {
        Err(VirtualCamError::InvalidFormat(m)) => assert_eq!(m, "Invalid capability index"),
        other => panic!("unexpected {:?}", other),
    }
}

#[test]
fn proc_amp_ranges_and_refusals() {
    let mut filter = VirtualCamFilter::new();
    let mut iam = filter.iam_video_proc_amp();
    assert_eq!(iam.get_range(VideoProcAmpProperty::Hue).unwrap(), (-180, 180, 0, 1));
    assert_eq!(iam.get_range(VideoProcAmpProperty::WhiteBalance).unwrap(), (0, 100, 50, 1));
    assert_eq!(iam.get(VideoProcAmpProperty::Gamma).unwrap(), 100);
    match iam.get(VideoProcAmpProperty::ColorEnable) {
        Err(VirtualCamError::InvalidFormat(m)) => assert_eq!(m, "Property not found"),
        other => panic!("unexpected {:?}", other),
    }
    match iam.set(VideoProcAmpProperty::Hue, -181, VideoProcAmpFlags::Auto) {
        Err(VirtualCamError::InvalidFormat(m)) => assert_eq!(m, "Value -181 out of range [-180, 180]"),
        other => panic!("unexpected {:?}", other),
    }
    iam.set(VideoProcAmpProperty::WhiteBalance, 42, VideoProcAmpFlags::default()).unwrap();
    assert_eq!(iam.get(VideoProcAmpProperty::WhiteBalance).unwrap(), 42);
    assert_eq!(iam.get(VideoProcAmpProperty::Hue).unwrap(), 0);
}

#[test]
fn proc_amp_setting_survives_the_interface() {
    let mut filter = VirtualCamFilter::new();
    {
        let mut iam = filter.iam_video_proc_amp();
        iam.set(VideoProcAmpProperty::Contrast, 200, VideoProcAmpFlags::Manual).unwrap();
    }
    let iam = filter.iam_video_proc_amp();
    assert_eq!(iam.get(VideoProcAmpProperty::Contrast).unwrap(), 200);
}

#[test]
fn property_set_is_inert() {
    let filter = VirtualCamFilter::new();
    let ks = filter.iks_property_set();
    assert!(ks.set("guid", 1, &[1, 2]).is_ok());
    let mut buf = [7u8; 4];
    assert_eq!(ks.get("guid", 1, &mut buf).unwrap(), 0);
    assert_eq!(buf, [7u8; 4]);
    assert_eq!(ks.query_supported("guid", 1).unwrap(), false);
}

#[test]
fn manager_registration_and_removal() {
    let mut manager = VirtualCamManager::default();
    assert!(!manager.is_registered());
    manager.register().unwrap();
    manager.register().unwrap();
    assert!(manager.is_registered());
    manager.unregister().unwrap();
    assert!(!manager.is_registered());

    manager.get_or_create_filter("other").start().unwrap();
    manager.remove_filter("other").unwrap();
    assert_eq!(manager.get_or_create_filter("other").get_state(), FilterState::Stopped);
    assert!(manager.remove_filter("absent").is_ok());
}

#[test]
fn defaults_of_enums() {
    assert_eq!(VideoProcAmpProperty::default(), VideoProcAmpProperty::Brightness);
    assert_eq!(VideoProcAmpFlags::default(), VideoProcAmpFlags::Manual);
    assert_eq!(FilterState::default(), FilterState::Stopped);
    let frame = VirtualCamFrame::new(2, 2);
    assert_eq!(frame.data, vec![0u8; 12]);
    assert_eq!(frame.clone().data.len(), 12);
}
