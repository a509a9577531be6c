//! Capture sources: Bluetooth remote control, WiFi streaming, a test-pattern
//! generator, screen capture and USB (UVC) cameras.
pub mod bluetooth;
pub mod fake;
pub mod screen;
pub mod uvc;
pub mod wifi;
