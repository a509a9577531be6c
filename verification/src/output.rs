//! Output sinks for composited video.
pub mod virtual_cam;
