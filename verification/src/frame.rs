//! Video frames: RGB pixel data with dimensions, a capture timestamp and the
//! identifier of the source that produced them.
use vstd::prelude::*;
use crate::clock::unix_time_micros;

verus! {

/// Default frame width in pixels.
pub const DEFAULT_WIDTH: u32 = 1920;
/// Default frame height in pixels.
pub const DEFAULT_HEIGHT: u32 = 1080;

/// Number of bytes of a packed RGB image of the given dimensions.
pub open spec fn rgb_len(width: u32, height: u32) -> int {
    width * height * 3
}

/// Whether an RGB frame of the given size has a byte length that fits 32 bits.
pub fn rgb_len_fits(width: u32, height: u32) -> (b: bool)
    ensures
        b == (rgb_len(width, height) <= u32::MAX),
{
    let w = width as u64;
    let h = height as u64;
    assert(w * h <= 0xffff_fffe_0000_0001) by (nonlinear_arith)
        requires w <= 0xffff_ffff, h <= 0xffff_ffff;
    let p = w * h;
    p <= 0x5555_5555
}

/// Mathematical model of a frame.
pub struct FrameView {
    pub data: Seq<u8>,
    pub width: u32,
    pub height: u32,
    pub timestamp_us: u64,
    pub source_id: Seq<char>,
}

/// Frame buffer containing RGB pixel data.
pub struct Frame {
    /// Raw RGB pixel data (width * height * 3 bytes)
    pub data: Vec<u8>,
    /// Frame width in pixels
    pub width: u32,
    /// Frame height in pixels
    pub height: u32,
    /// Frame timestamp in microseconds since UNIX epoch
    pub timestamp_us: u64,
    /// Source identifier (e.g., "gopro-uvc", "screen", "wifi")
    pub source_id: String,
}

impl View for Frame {
    type V = FrameView;

    open spec fn view(&self) -> FrameView {
        FrameView {
            data: self.data@,
            width: self.width,
            height: self.height,
            timestamp_us: self.timestamp_us,
            source_id: self.source_id@,
        }
    }
}

impl Clone for Frame {
    fn clone(&self) -> (res: Self)
        ensures
            res@ == self@,
    {
        Frame {
            data: self.data.clone(),
            width: self.width,
            height: self.height,
            timestamp_us: self.timestamp_us,
            source_id: self.source_id.clone(),
        }
    }
}

/// A buffer of `len` zero bytes.
pub fn zeroed(len: usize) -> (v: Vec<u8>)
    ensures
        v@ == Seq::new(len as nat, |i: int| 0u8),
{
    let mut v: Vec<u8> = Vec::with_capacity(len);
    let mut i: usize = 0;
    while i < len
        invariant
            i <= len,
            v@ == Seq::new(i as nat, |k: int| 0u8),
        decreases len - i,
    {
        v.push(0u8);
        i = i + 1;
    }
    v
}

impl Frame {
    /// Create a new, black frame with the given dimensions.
    pub fn new(width: u32, height: u32, source_id: &str) -> (f: Self)
        requires
            rgb_len(width, height) <= u32::MAX,
        ensures
            f.data@ == Seq::new(rgb_len(width, height) as nat, |i: int| 0u8),
            f.width == width,
            f.height == height,
            f.source_id@ == source_id@,
    {
        let data = zeroed((width * height * 3) as usize);
        let timestamp_us = unix_time_micros();
        Frame { data, width, height, timestamp_us, source_id: source_id.to_string() }
    }

    /// Create a frame from existing data, whose length must be that of the dimensions.
    pub fn from_data(data: Vec<u8>, width: u32, height: u32, source_id: &str) -> (f: Self)
        requires
            rgb_len(width, height) <= u32::MAX,
            data.len() == rgb_len(width, height),
        ensures
            f.data@ == data@,
            f.width == width,
            f.height == height,
            f.source_id@ == source_id@,
    {
        let timestamp_us = unix_time_micros();
        Frame { data, width, height, timestamp_us, source_id: source_id.to_string() }
    }

    /// Get the frame size in bytes.
    pub fn size(&self) -> (n: usize)
        ensures
            n == self.data.len(),
    {
        self.data.len()
    }
}

} // verus!
