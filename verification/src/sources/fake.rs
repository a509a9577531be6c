//! Fake source: generates a color-bar test pattern for testing.
use vstd::prelude::*;
use crate::clock::unix_time_micros;
use crate::frame::{rgb_len, rgb_len_fits, DEFAULT_HEIGHT, DEFAULT_WIDTH};
use crate::pacing::{frame_interval_us, wait_until};
use crate::source_bus::{FrameMetadata, SourceBus, SourceError, FPS_30_BITS};

verus! {

/// The RGB color of bar `k` of the standard color bars: white, yellow, cyan,
/// green, magenta, red, blue, black.
pub open spec fn bar_color(k: int) -> Seq<u8> {
    if k == 0 { seq![255u8, 255u8, 255u8] }
    else if k == 1 { seq![255u8, 255u8, 0u8] }
    else if k == 2 { seq![0u8, 255u8, 255u8] }
    else if k == 3 { seq![0u8, 255u8, 0u8] }
    else if k == 4 { seq![255u8, 0u8, 255u8] }
    else if k == 5 { seq![255u8, 0u8, 0u8] }
    else if k == 6 { seq![0u8, 0u8, 255u8] }
    else { seq![0u8, 0u8, 0u8] }
}

/// One row of the color-bar pattern: pixel `x` shows bar `(x / (width / 8)) % 8`.
pub open spec fn color_bar_row(width: u32) -> Seq<u8> {
    Seq::new((3 * width) as nat, |j: int| bar_color(((j / 3) / ((width / 8) as int)) % 8)[j % 3])
}

/// `n` copies of `row`, one after the other.
pub open spec fn repeat_rows(row: Seq<u8>, n: nat) -> Seq<u8>
    decreases n,
{
    if n == 0 { Seq::empty() } else { repeat_rows(row, (n - 1) as nat) + row }
}

/// The color-bar frame: every row is the same row of bars.
pub open spec fn color_bar_frame(width: u32, height: u32) -> Seq<u8> {
    repeat_rows(color_bar_row(width), height as nat)
}

/// The color of a bar, as an array.
pub fn bar_rgb(k: usize) -> (c: [u8; 3])
    requires
        k < 8,
    ensures
        c@ == bar_color(k as int),
{
    let colors: [[u8; 3]; 8] = [
        [255, 255, 255], // White
        [255, 255, 0],   // Yellow
        [0, 255, 255],   // Cyan
        [0, 255, 0],     // Green
        [255, 0, 255],   // Magenta
        [255, 0, 0],     // Red
        [0, 0, 255],     // Blue
        [0, 0, 0],       // Black
    ];
    let c = colors[k];
    assert(c@ =~= bar_color(k as int));
    c
}

/// Configuration for the fake source
#[derive(Debug)]
pub struct FakeSourceConfig {
    pub width: u32,
    pub height: u32,
    /// Frame rate, as single-precision bits
    pub fps_bits: u32,
    pub source_id: String,
}

impl Default for FakeSourceConfig {
    fn default() -> (c: Self)
        ensures
            c.width == 1920,
            c.height == 1080,
            c.fps_bits == FPS_30_BITS,
            c.source_id@ == "fake"@,
    {
        FakeSourceConfig { width: DEFAULT_WIDTH, height: DEFAULT_HEIGHT, fps_bits: FPS_30_BITS, source_id: "fake".to_string() }
    }
}

/// Mathematical model of a fake source.
pub struct FakeSourceView {
    pub width: u32,
    pub height: u32,
    pub fps_bits: u32,
    pub source_id: Seq<char>,
    pub connected: bool,
    /// Frames delivered since the last connection.
    pub frame_count: u64,
}

/// FakeSource generates a color-bar pattern for testing, at the configured
/// frame rate.
pub struct FakeSource {
    config: FakeSourceConfig,
    connected: bool,
    frame_count: u64,
    /// Clock reading when the last frame was delivered, since connecting.
    last_frame_us: Option<u64>,
}

impl View for FakeSource {
    type V = FakeSourceView;

    closed spec fn view(&self) -> FakeSourceView {
        FakeSourceView {
            width: self.config.width,
            height: self.config.height,
            fps_bits: self.config.fps_bits,
            source_id: self.config.source_id@,
            connected: self.connected,
            frame_count: self.frame_count,
        }
    }
}

/// A color-bar frame holds three bytes per pixel.
pub proof fn law_color_bar_frame_len(width: u32, height: u32)
    ensures
        color_bar_frame(width, height).len() == 3 * width * height,
{
    lemma_repeat_rows_len(color_bar_row(width), height as nat);
    assert(height * (3 * width) == 3 * width * height) by (nonlinear_arith);
}

proof fn lemma_repeat_rows_len(row: Seq<u8>, n: nat)
    ensures
        repeat_rows(row, n).len() == n * row.len(),
    decreases n,
{
    if n > 0 {
        lemma_repeat_rows_len(row, (n - 1) as nat);
        let m = (n - 1) as nat;
        let l = row.len();
        assert(m * l + l == (m + 1) * l) by (nonlinear_arith);
    } else {
        assert(0 * row.len() == 0);
    }
}

proof fn lemma_repeat_rows_index(row: Seq<u8>, n: nat, k: int, j: int)
    requires
        0 <= k < n,
        0 <= j < row.len(),
    ensures
        repeat_rows(row, n).len() == n * row.len(),
        repeat_rows(row, n)[k * row.len() + j] == row[j],
    decreases n,
{
    lemma_repeat_rows_len(row, n);
    let m = (n - 1) as nat;
    lemma_repeat_rows_len(row, m);
    if k < m {
        lemma_repeat_rows_index(row, m, k, j);
        assert(k * row.len() + j < m * row.len()) by (nonlinear_arith)
            requires k < m, 0 <= j < row.len();
    } else {
        assert(k * row.len() == m * row.len());
    }
}

/// Every pixel of a color-bar frame shows the bar of its column: pixel
/// `(x, y)` has the color of bar `(x / (width / 8)) % 8`, so each of the
/// eight bars is `width / 8` pixels wide, from white at the left.
pub proof fn law_color_bar_pixels(width: u32, height: u32, x: int, y: int, c: int)
    requires
        width >= 8,
        0 <= x < width,
        0 <= y < height,
        0 <= c < 3,
    ensures
        color_bar_frame(width, height)[3 * (y * width + x) + c] == bar_color((x / (width / 8) as int) % 8)[c],
{
    let row = color_bar_row(width);
    let j = 3 * x + c;
    assert(3 * (y * width + x) + c == y * (3 * width) + j) by (nonlinear_arith)
        requires j == 3 * x + c;
    lemma_repeat_rows_index(row, height as nat, y, j);
    assert(j / 3 == x && j % 3 == c) by (nonlinear_arith)
        requires j == 3 * x + c, 0 <= c < 3, 0 <= x;
}

impl FakeSource {
    pub fn new() -> (s: Self)
        ensures
            s@ == (FakeSourceView {
                width: 1920, height: 1080, fps_bits: FPS_30_BITS, source_id: "fake"@, connected: false, frame_count: 0,
            }),
    {
        FakeSource { config: FakeSourceConfig::default(), connected: false, frame_count: 0, last_frame_us: None }
    }

    pub fn with_config(config: FakeSourceConfig) -> (s: Self)
        ensures
            s@ == (FakeSourceView {
                width: config.width,
                height: config.height,
                fps_bits: config.fps_bits,
                source_id: config.source_id@,
                connected: false,
                frame_count: 0,
            }),
    {
        FakeSource { config, connected: false, frame_count: 0, last_frame_us: None }
    }

    /// Generate a color-bar test pattern
    fn generate_color_bar(&self) -> (data: Vec<u8>)
        requires
            rgb_len(self.config.width, self.config.height) <= u32::MAX,
            self.config.width >= 8 || self.config.width == 0 || self.config.height == 0,
        ensures
            data@ == color_bar_frame(self.config.width, self.config.height),
    {
        let width = self.config.width;
        let height = self.config.height;
        let ghost row = color_bar_row(width);
        let mut data: Vec<u8> = Vec::new();
        if width == 0 {
            assert forall|n: nat| #[trigger] repeat_rows(row, n) == Seq::<u8>::empty() by {
                lemma_repeat_rows_len(row, n);
                assert(repeat_rows(row, n) =~= Seq::<u8>::empty());
            }
            return data;
        }
        let bar_width = width / 8;
        for y in 0..height
            invariant
                width == self.config.width,
                height == self.config.height,
                width >= 8 || height == 0,
                bar_width == width / 8,
                row == color_bar_row(width),
                data@ == repeat_rows(row, y as nat),
        {
            let ghost start = data@;
            for x in 0..width
                invariant
                    width == self.config.width,
                    width >= 8,
                    bar_width == width / 8,
                    row == color_bar_row(width),
                    data@ == start + row.take(3 * x),
            {
                let bar_idx = (x / bar_width) as usize % 8;
                let color = bar_rgb(bar_idx);
                data.push(color[0]);
                data.push(color[1]);
                data.push(color[2]);
                proof {
                    assert(row[3 * x as int] == color@[0]);
                    assert(row[3 * x + 1] == color@[1]);
                    assert(row[3 * x + 2] == color@[2]);
                    assert(data@ =~= start + row.take(3 * (x + 1)));
                }
            }
            assert(row.take(3 * width as int) =~= row);
        }
        data
    }
}

impl Default for FakeSource {
    fn default() -> (s: Self)
        ensures
            s@ == (FakeSourceView {
                width: 1920, height: 1080, fps_bits: FPS_30_BITS, source_id: "fake"@, connected: false, frame_count: 0,
            }),
    {
        Self::new()
    }
}

impl SourceBus for FakeSource {
    /// The frame must fit in 32-bit arithmetic, a non-empty frame needs at
    /// least one pixel per bar, and the frame counter must not overflow.
    open spec fn capture_defined(&self) -> bool {
        &&& rgb_len(self@.width, self@.height) <= u32::MAX
        &&& (self@.width >= 8 || self@.width == 0 || self@.height == 0)
        &&& self@.frame_count < u64::MAX
    }

    fn can_capture(&self) -> (b: bool) {
        rgb_len_fits(self.config.width, self.config.height)
            && (self.config.width >= 8 || self.config.width == 0 || self.config.height == 0)
            && self.frame_count < u64::MAX
    }

    /// Connects and restarts the frame count.
    fn connect(&mut self) -> (r: Result<(), SourceError>)
        ensures
            r is Ok,
            final(self)@ == (FakeSourceView { connected: true, frame_count: 0, ..old(self)@ }),
    {
        self.connected = true;
        self.frame_count = 0;
        self.last_frame_us = None;
        Ok(())
    }

    fn disconnect(&mut self) -> (r: Result<(), SourceError>)
        ensures
            r is Ok,
            final(self)@ == (FakeSourceView { connected: false, ..old(self)@ }),
    {
        self.connected = false;
        Ok(())
    }

    fn is_connected(&self) -> (b: bool)
        ensures
            b == self@.connected,
    {
        self.connected
    }

    /// The next color-bar frame, delivered no sooner than one frame interval
    /// of the configured rate after the previous one; fails when not connected.
    /// When the frame is delivered depends on the clock and is not stated.
    fn next_frame(&mut self) -> (r: Result<Vec<u8>, SourceError>)
        ensures
            r is Ok <==> old(self)@.connected,
            r matches Ok(v) ==> v@ == color_bar_frame(old(self)@.width, old(self)@.height),
            r matches Err(e) ==> (e matches SourceError::Message(m) && m@ == "FakeSource not connected"@),
            r is Ok ==> final(self)@ == (FakeSourceView { frame_count: (old(self)@.frame_count + 1) as u64, ..old(self)@ }),
            r is Err ==> final(self)@ == old(self)@,
    {
        if !self.connected {
            return Err(SourceError::Message("FakeSource not connected".to_string()));
        }
        self.frame_count = self.frame_count + 1;
        if let Some(last) = self.last_frame_us {
            let interval = frame_interval_us(self.config.fps_bits);
            wait_until(last.saturating_add(interval));
        }
        self.last_frame_us = Some(unix_time_micros());
        Ok(self.generate_color_bar())
    }

    /// Metadata of the configured size and rate.
    fn frame_metadata(&self) -> (m: Option<FrameMetadata>)
        ensures
            m matches Some(md) && md.width == self@.width && md.height == self@.height && md.fps_bits == self@.fps_bits,
    {
        Some(FrameMetadata::new(self.config.width, self.config.height, self.config.fps_bits))
    }
}

} // verus!
