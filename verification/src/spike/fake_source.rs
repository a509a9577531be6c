//! Fake UVC source: a color-bar test pattern, drawn with the `image` crate.
use vstd::prelude::*;
use crate::sources::fake::{bar_color, bar_rgb};
use crate::spike::capture::{CaptureError, FrameSource, HEIGHT, WIDTH};

verus! {

/// An RGB image of 8-bit samples, held in an `image::ImageBuffer`. The buffer
/// type is bounded by the crate's `Pixel` trait, so it is kept in an opaque
/// field here; its contents are known through the names below.
#[verifier::external_body]
pub struct RgbImage {
    inner: image::ImageBuffer<image::Rgb<u8>, Vec<u8>>,
}

/// The samples of an image, row by row, three per pixel.
pub uninterp spec fn rgb_image_samples(img: RgbImage) -> Seq<u8>;

/// The width of an image in pixels.
pub uninterp spec fn rgb_image_width(img: RgbImage) -> u32;

/// The height of an image in pixels.
pub uninterp spec fn rgb_image_height(img: RgbImage) -> u32;

/// A black image, by `ImageBuffer::new`: the given dimensions, all samples 0.
#[verifier::external_body]
fn new_rgb_image(width: u32, height: u32) -> (img: RgbImage)
    requires
        width * height * 3 <= usize::MAX,
    ensures
        rgb_image_width(img) == width,
        rgb_image_height(img) == height,
        rgb_image_samples(img) == Seq::new((width * height * 3) as nat, |i: int| 0u8),
{
    RgbImage { inner: image::ImageBuffer::new(width, height) }
}

/// Sets pixel `(x, y)`, by `ImageBuffer::put_pixel`: its three samples, at
/// `3 * (y * width + x)`, become `rgb`.
#[verifier::external_body]
fn put_rgb_pixel(img: &mut RgbImage, x: u32, y: u32, rgb: [u8; 3])
    requires
        x < rgb_image_width(*old(img)),
        y < rgb_image_height(*old(img)),
    ensures
        rgb_image_width(*final(img)) == rgb_image_width(*old(img)),
        rgb_image_height(*final(img)) == rgb_image_height(*old(img)),
        rgb_image_samples(*final(img)) == rgb_image_samples(*old(img))
            .update((y as int * rgb_image_width(*old(img)) as int + x as int) * 3, rgb@[0])
            .update((y as int * rgb_image_width(*old(img)) as int + x as int) * 3 + 1, rgb@[1])
            .update((y as int * rgb_image_width(*old(img)) as int + x as int) * 3 + 2, rgb@[2]),
{
    img.inner.put_pixel(x, y, image::Rgb(rgb))
}

/// The samples of an image, by `ImageBuffer::into_raw`.
#[verifier::external_body]
fn into_raw(img: RgbImage) -> (data: Vec<u8>)
    ensures
        data@ == rgb_image_samples(img),
{
    img.inner.into_raw()
}

/// First row of the half-gray band: 70% of the height.
pub open spec fn gray_band_start() -> int {
    1080int * 7 / 10
}

/// Sample `i` of the test pattern: eight vertical bars, 240 pixels wide,
/// over a gray band (192) in the bottom 30% of the rows.
pub open spec fn fake_uvc_sample(i: int) -> u8 {
    let p = i / 3;
    let y = p / 1920;
    let x = p % 1920;
    if y >= gray_band_start() { 192u8 } else { bar_color(x / 240)[i % 3] }
}

/// The test-pattern frame: 1920x1080 RGB.
pub open spec fn fake_uvc_frame() -> Seq<u8> {
    Seq::new(1920 * 1080 * 3, |i: int| fake_uvc_sample(i))
}

proof fn lemma_pixel_index(x: int, y: int, c: int)
    requires
        0 <= x < 1920,
        0 <= y < 1080,
        0 <= c < 3,
    ensures
        (5760 * y + 3 * x + c) / 3 == 1920 * y + x,
        (5760 * y + 3 * x + c) % 3 == c,
        (1920 * y + x) / 1920 == y,
        (1920 * y + x) % 1920 == x,
        5760 * y + 3 * x + c < 1920 * 1080 * 3,
{
    assert((5760 * y + 3 * x + c) / 3 == 1920 * y + x) by (nonlinear_arith)
        requires 0 <= x < 1920, 0 <= y < 1080, 0 <= c < 3;
    assert((5760 * y + 3 * x + c) % 3 == c) by (nonlinear_arith)
        requires 0 <= x < 1920, 0 <= y < 1080, 0 <= c < 3;
    assert((1920 * y + x) / 1920 == y) by (nonlinear_arith)
        requires 0 <= x < 1920, 0 <= y < 1080;
    assert((1920 * y + x) % 1920 == x) by (nonlinear_arith)
        requires 0 <= x < 1920, 0 <= y < 1080;
}

/// The image after pixels before `(x, y)` in row order are drawn.
pub open spec fn drawn_until(bound: int) -> Seq<u8> {
    Seq::new(1920 * 1080 * 3, |i: int| if i < bound { fake_uvc_sample(i) } else { 0u8 })
}

/// Fake UVC source that generates a color-bar pattern
pub struct FakeUvcSource {
    frame_counter: u32,
}

impl FakeUvcSource {
    pub fn new() -> (s: Self)
        ensures
            s.frames_delivered() == 0,
    {
        FakeUvcSource { frame_counter: 0 }
    }

    /// Number of frames delivered so far.
    pub closed spec fn frames_delivered(&self) -> u32 {
        self.frame_counter
    }
}

impl FrameSource for FakeUvcSource {
    fn can_capture(&self) -> (b: bool) {
        self.frame_counter < u32::MAX
    }

    /// The frame counter must not overflow.
    open spec fn capture_defined(&self) -> bool {
        self.frames_delivered() < u32::MAX
    }

    /// The next test-pattern frame.
    fn next_frame(&mut self) -> (r: Result<Vec<u8>, CaptureError>)
        ensures
            r matches Ok(v) && v@ == fake_uvc_frame(),
            final(self).frames_delivered() == old(self).frames_delivered() + 1,
    {
        self.frame_counter = self.frame_counter + 1;

        // 8 vertical bars of equal width
        let bar_width = WIDTH / 8;
        let mid_y_start = HEIGHT * 7 / 10;
        let mut img = new_rgb_image(WIDTH, HEIGHT);
        assert(rgb_image_samples(img) =~= drawn_until(0));
        for y in 0..HEIGHT
            invariant
                bar_width == 240,
                mid_y_start == 756,
                rgb_image_width(img) == 1920,
                rgb_image_height(img) == 1080,
                rgb_image_samples(img) == drawn_until(5760 * y),
        {
            for x in 0..WIDTH
                invariant
                    y < 1080,
                    bar_width == 240,
                    mid_y_start == 756,
                    rgb_image_width(img) == 1920,
                    rgb_image_height(img) == 1080,
                    rgb_image_samples(img) == drawn_until(5760 * y + 3 * x),
            {
                let rgb: [u8; 3] = if y >= mid_y_start { [192, 192, 192] } else { bar_rgb((x / bar_width) as usize) };
                let ghost before = rgb_image_samples(img);
                put_rgb_pixel(&mut img, x, y, rgb);
                proof {
                    let k = 5760 * y + 3 * x;
                    assert((y as int * 1920 + x as int) * 3 == k);
                    lemma_pixel_index(x as int, y as int, 0);
                    lemma_pixel_index(x as int, y as int, 1);
                    lemma_pixel_index(x as int, y as int, 2);
                    assert(fake_uvc_sample(k) == rgb@[0]);
                    assert(fake_uvc_sample(k + 1) == rgb@[1]);
                    assert(fake_uvc_sample(k + 2) == rgb@[2]);
                    assert(rgb_image_samples(img) =~= drawn_until(k + 3));
                }
            }
        }
        assert(drawn_until(5760int * 1080) =~= fake_uvc_frame());
        Ok(into_raw(img))
    }
}

} // verus!
