//! Capture of a GoPro as a USB camera: frame sources (a real camera and a
//! color-bar test pattern) and USB device detection.
pub mod capture;
pub mod fake_source;
pub mod usb;
