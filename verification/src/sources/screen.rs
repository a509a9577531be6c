//! Screen capture source: frames captured by the user interface are handed to
//! the source, which delivers them through the source interface.
use vstd::prelude::*;
use crate::clock::unix_time_micros;
use crate::frame::{rgb_len, rgb_len_fits, zeroed};
use crate::source_bus::{FrameMetadata, SourceBus, SourceError, FPS_30_BITS};

verus! {

/// Screen capture source configuration
#[derive(Debug)]
pub struct ScreenCaptureConfig {
    /// Source identifier
    pub source_id: String,
    /// Expected frame width
    pub width: u32,
    /// Expected frame height
    pub height: u32,
    /// Expected frame rate, as single-precision bits
    pub fps_bits: u32,
}

impl Default for ScreenCaptureConfig {
    fn default() -> (c: Self)
        ensures
            c.source_id@ == "screen"@,
            c.width == 1920,
            c.height == 1080,
            c.fps_bits == FPS_30_BITS,
    {
        ScreenCaptureConfig { source_id: "screen".to_string(), width: 1920, height: 1080, fps_bits: FPS_30_BITS }
    }
}

/// Internal frame buffer state
#[derive(Debug)]
pub struct FrameBuffer {
    pub data: Option<Vec<u8>>,
    pub width: u32,
    pub height: u32,
    pub timestamp_us: u64,
}

impl Default for FrameBuffer {
    fn default() -> (b: Self)
        ensures
            b.data is None,
            b.width == 0,
            b.height == 0,
            b.timestamp_us == 0,
    {
        FrameBuffer { data: None, width: 0, height: 0, timestamp_us: 0 }
    }
}

/// Input frame data from the user interface
#[derive(Debug)]
pub struct ScreenFrameInput {
    /// Raw RGB pixel data
    pub data: Vec<u8>,
    /// Frame width
    pub width: u32,
    /// Frame height
    pub height: u32,
}

/// Mathematical model of a screen capture source.
pub struct ScreenCaptureView {
    pub source_id: Seq<char>,
    pub width: u32,
    pub height: u32,
    pub fps_bits: u32,
    pub connected: bool,
    /// The frame received and not yet delivered, if any.
    pub pending: Option<Seq<u8>>,
    pub pending_width: u32,
    pub pending_height: u32,
}

/// The source after a frame of the given size was received.
pub open spec fn after_receive(v: ScreenCaptureView, data: Seq<u8>, width: u32, height: u32) -> ScreenCaptureView {
    ScreenCaptureView { pending: Some(data), pending_width: width, pending_height: height, ..v }
}

/// The frame that `next_frame` delivers: the pending frame, or a black frame
/// of the configured size when none is pending.
pub open spec fn delivered(v: ScreenCaptureView) -> Seq<u8> {
    match v.pending {
        Some(d) => d,
        None => Seq::new(rgb_len(v.width, v.height) as nat, |i: int| 0u8),
    }
}

/// The source once its pending frame was delivered.
pub open spec fn after_delivery(v: ScreenCaptureView) -> ScreenCaptureView {
    ScreenCaptureView { pending: None, ..v }
}

/// A received frame is delivered exactly once: the next frame is the one
/// received, the frame after it is black.
pub proof fn law_receive_then_deliver(v: ScreenCaptureView, data: Seq<u8>, width: u32, height: u32)
    ensures
        delivered(after_receive(v, data, width, height)) == data,
        delivered(after_delivery(after_receive(v, data, width, height)))
            == Seq::new(rgb_len(v.width, v.height) as nat, |i: int| 0u8),
{
}

/// ScreenCaptureSource receives frames from the user interface
pub struct ScreenCaptureSource {
    config: ScreenCaptureConfig,
    connected: bool,
    frame_buffer: FrameBuffer,
}

impl View for ScreenCaptureSource {
    type V = ScreenCaptureView;

    closed spec fn view(&self) -> ScreenCaptureView {
        ScreenCaptureView {
            source_id: self.config.source_id@,
            width: self.config.width,
            height: self.config.height,
            fps_bits: self.config.fps_bits,
            connected: self.connected,
            pending: match self.frame_buffer.data {
                Some(d) => Some(d@),
                None => None,
            },
            pending_width: self.frame_buffer.width,
            pending_height: self.frame_buffer.height,
        }
    }
}

impl ScreenCaptureSource {
    /// Create a new screen capture source with default configuration
    pub fn new() -> (s: Self)
        ensures
            s@ == (ScreenCaptureView {
                source_id: "screen"@,
                width: 1920,
                height: 1080,
                fps_bits: FPS_30_BITS,
                connected: false,
                pending: None,
                pending_width: 0,
                pending_height: 0,
            }),
    {
        ScreenCaptureSource { config: ScreenCaptureConfig::default(), connected: false, frame_buffer: FrameBuffer::default() }
    }

    /// Create a new screen capture source with custom configuration
    pub fn with_config(config: ScreenCaptureConfig) -> (s: Self)
        ensures
            s@ == (ScreenCaptureView {
                source_id: config.source_id@,
                width: config.width,
                height: config.height,
                fps_bits: config.fps_bits,
                connected: false,
                pending: None,
                pending_width: 0,
                pending_height: 0,
            }),
    {
        ScreenCaptureSource { config, connected: false, frame_buffer: FrameBuffer::default() }
    }

    /// The frame buffer that received frames are written to.
    pub fn frame_buffer(&self) -> (b: &FrameBuffer)
        ensures
            (match b.data { Some(d) => Some(d@), None => None::<Seq<u8>> }) == self@.pending,
            b.width == self@.pending_width,
            b.height == self@.pending_height,
    {
        &self.frame_buffer
    }

    /// Stores a frame received from the user interface, replacing any pending one.
    pub fn receive_frame(&mut self, frame: ScreenFrameInput)
        ensures
            final(self)@ == after_receive(old(self)@, frame.data@, frame.width, frame.height),
    {
        let timestamp_us = unix_time_micros();
        let ScreenFrameInput { data, width, height } = frame;
        self.frame_buffer.data = Some(data);
        self.frame_buffer.width = width;
        self.frame_buffer.height = height;
        self.frame_buffer.timestamp_us = timestamp_us;
    }

    /// Pop the current frame and clear the buffer
    fn pop_frame(&mut self) -> (r: Option<Vec<u8>>)
        ensures
            (match r { Some(d) => Some(d@), None => None::<Seq<u8>> }) == old(self)@.pending,
            final(self)@ == (ScreenCaptureView { pending: None, ..old(self)@ }),
    {
        self.frame_buffer.data.take()
    }
}

impl Default for ScreenCaptureSource {
    fn default() -> (s: Self)
        ensures
            s@ == (ScreenCaptureView {
                source_id: "screen"@,
                width: 1920,
                height: 1080,
                fps_bits: FPS_30_BITS,
                connected: false,
                pending: None,
                pending_width: 0,
                pending_height: 0,
            }),
    {
        Self::new()
    }
}

impl SourceBus for ScreenCaptureSource {
    /// A black frame of the configured size must fit in 32-bit arithmetic.
    open spec fn capture_defined(&self) -> bool {
        rgb_len(self@.width, self@.height) <= u32::MAX
    }

    fn can_capture(&self) -> (b: bool) {
        rgb_len_fits(self.config.width, self.config.height)
    }

    fn connect(&mut self) -> (r: Result<(), SourceError>)
        ensures
            r is Ok,
            final(self)@ == (ScreenCaptureView { connected: true, ..old(self)@ }),
    {
        self.connected = true;
        Ok(())
    }

    /// Disconnects and drops any pending frame.
    fn disconnect(&mut self) -> (r: Result<(), SourceError>)
        ensures
            r is Ok,
            final(self)@ == (ScreenCaptureView { connected: false, pending: None, ..old(self)@ }),
    {
        self.connected = false;
        self.frame_buffer.data = None;
        Ok(())
    }

    fn is_connected(&self) -> (b: bool)
        ensures
            b == self@.connected,
    {
        self.connected
    }

    /// The pending frame, taken out of the buffer; a black frame of the
    /// configured size when none is pending. Fails when not connected.
    fn next_frame(&mut self) -> (r: Result<Vec<u8>, SourceError>)
        ensures
            r is Ok <==> old(self)@.connected,
            r matches Err(e) ==> (e matches SourceError::Message(m) && m@ == "ScreenCaptureSource not connected"@),
            r is Err ==> final(self)@ == old(self)@,
            r matches Ok(v) ==> v@ == delivered(old(self)@),
            r is Ok ==> final(self)@ == after_delivery(old(self)@),
    {
        if !self.connected {
            return Err(SourceError::Message("ScreenCaptureSource not connected".to_string()));
        }
        match self.pop_frame() {
            Some(data) => Ok(data),
            None => {
                let size = (self.config.width * self.config.height * 3) as usize;
                Ok(zeroed(size))
            },
        }
    }

    /// Metadata of the configured size and rate.
    fn frame_metadata(&self) -> (m: Option<FrameMetadata>)
        ensures
            m matches Some(md) && md.width == self@.width && md.height == self@.height && md.fps_bits == self@.fps_bits,
    {
        Some(FrameMetadata::new(self.config.width, self.config.height, self.config.fps_bits))
    }
}

} // verus!
