use studigo::source_bus::SourceBus;
use studigo::sources::screen::{ScreenCaptureSource, ScreenFrameInput};
use studigo::studio::{reconnect_screen_source, screen_source_error, screen_source_health};
use studigo::SourceHealth;

#[test]
fn screen_health_follows_connection() {
    assert_eq!(screen_source_health(None), SourceHealth::Uninitialized);
    assert_eq!(SourceHealth::default(), SourceHealth::Uninitialized);
    let mut source = ScreenCaptureSource::new();
    assert_eq!(screen_source_health(Some(&source)), SourceHealth::Disconnected);
    assert_eq!(screen_source_error(Some(&source)).unwrap(), "Source disconnected");
    source.connect().unwrap();
    assert_eq!(screen_source_health(Some(&source)), SourceHealth::Healthy);
    assert!(screen_source_error(Some(&source)).is_none());
    assert_eq!(screen_source_error(None).unwrap(), "Source not initialized");
}

#[test]
fn reconnect_drops_pending_frame_of_a_connected_source() {
    let mut source = ScreenCaptureSource::new();
    source.receive_frame(ScreenFrameInput { data: vec![1, 2, 3], width: 1, height: 1 });
    reconnect_screen_source(&mut source).unwrap();
    assert!(source.is_connected());
    assert!(source.frame_buffer().data.is_some());
    reconnect_screen_source(&mut source).unwrap();
    assert!(source.is_connected());
    assert!(source.frame_buffer().data.is_none());
}
