//! The interface shared by video/audio capture sources, their frame metadata
//! and their errors.
use vstd::prelude::*;
use crate::clock::unix_time_micros;

pub mod sealed;

verus! {

/// IEEE-754 single-precision bit pattern of `30.0`, the default frame rate.
/// Frame rates are carried as the bit patterns of single-precision numbers.
pub const FPS_30_BITS: u32 = 0x41F0_0000;

/// Frame metadata
#[derive(Debug)]
pub struct FrameMetadata {
    /// Frame width in pixels
    pub width: u32,
    /// Frame height in pixels
    pub height: u32,
    /// Frame timestamp (microseconds since epoch)
    pub timestamp_us: u64,
    /// Frame rate (frames per second), as single-precision bits
    pub fps_bits: u32,
}

impl Clone for FrameMetadata {
    fn clone(&self) -> (m: Self)
        ensures
            m == *self,
    {
        FrameMetadata { width: self.width, height: self.height, timestamp_us: self.timestamp_us, fps_bits: self.fps_bits }
    }
}

impl FrameMetadata {
    /// Metadata of a frame captured now.
    pub fn new(width: u32, height: u32, fps_bits: u32) -> (m: Self)
        ensures
            m.width == width,
            m.height == height,
            m.fps_bits == fps_bits,
    {
        FrameMetadata { width, height, timestamp_us: unix_time_micros(), fps_bits }
    }
}

/// Source error types
#[derive(Debug)]
pub enum SourceError {
    NotConnected,
    ConnectionFailed(String),
    CaptureFailed(String),
    Disconnected,
    /// A failure reported by its message alone.
    Message(String),
}

/// SourceBus trait - the core interface for all video/audio sources
pub trait SourceBus {
    /// Whether the source can produce its next frame without exceeding the
    /// machine's arithmetic.
    spec fn capture_defined(&self) -> bool;

    /// Whether the next frame can be asked for, as `capture_defined` says.
    fn can_capture(&self) -> (b: bool)
        ensures
            b == self.capture_defined();

    /// Connect to the source and begin streaming
    fn connect(&mut self) -> Result<(), SourceError>;

    /// Disconnect from the source
    fn disconnect(&mut self) -> Result<(), SourceError>;

    /// Check if currently connected
    fn is_connected(&self) -> bool;

    /// Get the next frame as RGB bytes
    fn next_frame(&mut self) -> Result<Vec<u8>, SourceError>
        requires
            old(self).capture_defined();

    /// Get frame metadata for the current frame
    fn frame_metadata(&self) -> Option<FrameMetadata>;
}

} // verus!
