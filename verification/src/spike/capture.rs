//! Frame sources for capture.
use vstd::prelude::*;

verus! {

/// Frame dimensions for capture
pub const WIDTH: u32 = 1920;
pub const HEIGHT: u32 = 1080;

/// Errors of frame capture.
#[derive(Debug)]
pub enum CaptureError {
    /// The source cannot deliver frames.
    Unsupported(String),
}

/// Trait for frame sources (real UVC or fake)
pub trait FrameSource {
    /// Whether the source can produce its next frame without exceeding the
    /// machine's arithmetic.
    spec fn capture_defined(&self) -> bool;

    /// Whether the next frame can be asked for, as `capture_defined` says.
    fn can_capture(&self) -> (b: bool)
        ensures
            b == self.capture_defined();

    /// Get the next frame as RGB bytes
    fn next_frame(&mut self) -> Result<Vec<u8>, CaptureError>
        requires
            old(self).capture_defined();
}

/// Real UVC source. Direct capture needs the platform's camera APIs, which
/// this source does not drive: it delivers no frames.
pub struct RealUvcSource {}

impl RealUvcSource {
    pub fn new() -> (r: Result<Self, CaptureError>)
        ensures
            r is Ok,
    {
        Ok(RealUvcSource {})
    }
}

impl FrameSource for RealUvcSource {
    open spec fn capture_defined(&self) -> bool {
        true
    }

    fn can_capture(&self) -> (b: bool) {
        true
    }

    /// Always fails: real capture is not implemented; use the fake source.
    fn next_frame(&mut self) -> (r: Result<Vec<u8>, CaptureError>)
        ensures
            r matches Err(CaptureError::Unsupported(m))
                && m@ == "Real UVC capture not fully implemented - use FakeUvcSource"@,
    {
        Err(CaptureError::Unsupported("Real UVC capture not fully implemented - use FakeUvcSource".to_string()))
    }
}

} // verus!
