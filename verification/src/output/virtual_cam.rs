//! Virtual camera output: a filter that holds the video format, the pending
//! frame and the video-processing settings exposed to DirectShow-style clients,
//! and a manager of named filters.
use vstd::prelude::*;
use crate::frame::rgb_len;
use crate::frame::zeroed;
use crate::clock::unix_time_micros;
use crate::text::{decimal, push_decimal, push_str, string_from_chars};

verus! {

/// Virtual camera filter CLSID
/// {B7A0C123-8D4E-4F3A-9B5E-6C8D7E2F1A0B}
pub const CLSID_GOPRO_CAM_FILTER: &'static str = "b7a0c123-8d4e-4f3a-9b5e-6c8d7e2f1a0b";

/// Virtual camera name as it appears in applications
pub const VIRTUAL_CAM_NAME: &'static str = "GoPro Webcam Studio";

/// Default frame dimensions
pub const DEFAULT_WIDTH: u32 = 1920;
pub const DEFAULT_HEIGHT: u32 = 1080;
pub const DEFAULT_FPS: u32 = 30;

/// Virtual camera error types
#[derive(Debug)]
pub enum VirtualCamError {
    NotInitialized,
    AlreadyRunning,
    NotRunning,
    LockError(String),
    InvalidFormat(String),
    RegistrationError(String),
    BufferError(String),
}

#[derive(Debug, Clone, Copy, PartialEq, Eq, Structural)]
pub enum MediaType {
    RGB24,
    YUV422,
    MJPEG,
}

/// Video format configuration
#[derive(Debug, Clone, Copy, PartialEq, Eq, Structural)]
pub struct VideoFormat {
    pub width: u32,
    pub height: u32,
    pub fps: u32,
    pub media_type: MediaType,
}

/// The default format: 1920x1080 RGB24 at 30 fps.
pub open spec fn default_format() -> VideoFormat {
    VideoFormat { width: 1920, height: 1080, fps: 30, media_type: MediaType::RGB24 }
}

impl Default for VideoFormat {
    fn default() -> (f: Self)
        ensures
            f == default_format(),
    {
        VideoFormat { width: DEFAULT_WIDTH, height: DEFAULT_HEIGHT, fps: DEFAULT_FPS, media_type: MediaType::RGB24 }
    }
}

/// Mathematical model of a virtual-camera frame.
pub struct VirtualCamFrameView {
    pub data: Seq<u8>,
    pub width: u32,
    pub height: u32,
    pub timestamp_us: u64,
}

/// Frame data for the virtual camera
#[derive(Debug)]
pub struct VirtualCamFrame {
    /// Raw pixel data
    pub data: Vec<u8>,
    /// Frame width
    pub width: u32,
    /// Frame height
    pub height: u32,
    /// Timestamp in microseconds
    pub timestamp_us: u64,
}

impl View for VirtualCamFrame {
    type V = VirtualCamFrameView;

    open spec fn view(&self) -> VirtualCamFrameView {
        VirtualCamFrameView { data: self.data@, width: self.width, height: self.height, timestamp_us: self.timestamp_us }
    }
}

impl Clone for VirtualCamFrame {
    fn clone(&self) -> (res: Self)
        ensures
            res@ == self@,
    {
        VirtualCamFrame { data: self.data.clone(), width: self.width, height: self.height, timestamp_us: self.timestamp_us }
    }
}

impl VirtualCamFrame {
    /// Create a new, black frame with the given dimensions
    pub fn new(width: u32, height: u32) -> (f: Self)
        requires
            rgb_len(width, height) <= u32::MAX,
        ensures
            f.data@ == Seq::new(rgb_len(width, height) as nat, |i: int| 0u8),
            f.width == width,
            f.height == height,
    {
        let data = zeroed((width * height * 3) as usize);
        let timestamp_us = unix_time_micros();
        VirtualCamFrame { data, width, height, timestamp_us }
    }

    /// Create a frame from existing data; the length of the data is not checked.
    pub fn from_data(data: Vec<u8>, width: u32, height: u32) -> (f: Self)
        ensures
            f.data@ == data@,
            f.width == width,
            f.height == height,
    {
        let timestamp_us = unix_time_micros();
        VirtualCamFrame { data, width, height, timestamp_us }
    }
}

/// IAMStreamConfig: getting and setting the video stream format
pub trait IAMStreamConfig {
    /// Get the current media format
    fn get_format(&self) -> Result<VideoFormat, VirtualCamError>;

    /// Set the media format
    fn set_format(&mut self, format: VideoFormat) -> Result<(), VirtualCamError>;

    /// Get the number of supported format capabilities
    fn get_capabilities_count(&self) -> Result<usize, VirtualCamError>;

    /// Get a specific capability by index
    fn get_capability(&self, index: usize) -> Result<VideoFormat, VirtualCamError>;
}

/// IAMVideoProcAmp: video processing such as brightness and contrast
pub trait IAMVideoProcAmp {
    /// Get the range `(min, max, default, step)` for a given property
    fn get_range(&self, property: VideoProcAmpProperty) -> Result<(i32, i32, i32, i32), VirtualCamError>;

    /// Get the current value of a property
    fn get(&self, property: VideoProcAmpProperty) -> Result<i32, VirtualCamError>;

    /// Set a property value
    fn set(&mut self, property: VideoProcAmpProperty, value: i32, flags: VideoProcAmpFlags) -> Result<(), VirtualCamError>;
}

/// Video processing amplifier properties
#[derive(Debug, Clone, Copy, PartialEq, Eq, Hash, Structural)]
pub enum VideoProcAmpProperty {
    Brightness,
    Contrast,
    Hue,
    Saturation,
    Sharpness,
    Gamma,
    ColorEnable,
    WhiteBalance,
    BacklightCompensation,
}

impl Default for VideoProcAmpProperty {
    fn default() -> (p: Self)
        ensures
            p == VideoProcAmpProperty::Brightness,
    {
        VideoProcAmpProperty::Brightness
    }
}

/// Video processing flags
#[derive(Debug, Clone, Copy, PartialEq, Eq, Structural)]
pub enum VideoProcAmpFlags {
    Auto,
    Manual,
}

impl Default for VideoProcAmpFlags {
    fn default() -> (f: Self)
        ensures
            f == VideoProcAmpFlags::Manual,
    {
        VideoProcAmpFlags::Manual
    }
}

/// IKsPropertySet: DirectShow property sets
pub trait IKsPropertySet {
    /// Set a property
    fn set(&self, guid: &str, prop_id: u32, data: &[u8]) -> Result<(), VirtualCamError>;

    /// Get a property
    fn get(&self, guid: &str, prop_id: u32, data: &mut [u8]) -> Result<usize, VirtualCamError>;

    /// Query if a property is supported
    fn query_supported(&self, guid: &str, prop_id: u32) -> Result<bool, VirtualCamError>;
}

/// Filter state
#[derive(Debug, Clone, Copy, PartialEq, Eq, Structural)]
pub enum FilterState {
    Stopped,
    Paused,
    Running,
}

impl Default for FilterState {
    fn default() -> (s: Self)
        ensures
            s == FilterState::Stopped,
    {
        FilterState::Stopped
    }
}

/// Values of the video-processing properties that have one.
struct ProcAmpSettings {
    brightness: Option<i32>,
    contrast: Option<i32>,
    hue: Option<i32>,
    saturation: Option<i32>,
    sharpness: Option<i32>,
    gamma: Option<i32>,
    color_enable: Option<i32>,
    white_balance: Option<i32>,
    backlight_compensation: Option<i32>,
}

impl ProcAmpSettings {
    closed spec fn value(&self, p: VideoProcAmpProperty) -> Option<i32> {
        match p {
            VideoProcAmpProperty::Brightness => self.brightness,
            VideoProcAmpProperty::Contrast => self.contrast,
            VideoProcAmpProperty::Hue => self.hue,
            VideoProcAmpProperty::Saturation => self.saturation,
            VideoProcAmpProperty::Sharpness => self.sharpness,
            VideoProcAmpProperty::Gamma => self.gamma,
            VideoProcAmpProperty::ColorEnable => self.color_enable,
            VideoProcAmpProperty::WhiteBalance => self.white_balance,
            VideoProcAmpProperty::BacklightCompensation => self.backlight_compensation,
        }
    }

    closed spec fn as_map(&self) -> Map<VideoProcAmpProperty, i32> {
        Map::new(|p: VideoProcAmpProperty| self.value(p) is Some, |p: VideoProcAmpProperty| self.value(p)->0)
    }

    fn lookup(&self, p: VideoProcAmpProperty) -> (r: Option<i32>)
        ensures
            r == self.value(p),
    {
        match p {
            VideoProcAmpProperty::Brightness => self.brightness,
            VideoProcAmpProperty::Contrast => self.contrast,
            VideoProcAmpProperty::Hue => self.hue,
            VideoProcAmpProperty::Saturation => self.saturation,
            VideoProcAmpProperty::Sharpness => self.sharpness,
            VideoProcAmpProperty::Gamma => self.gamma,
            VideoProcAmpProperty::ColorEnable => self.color_enable,
            VideoProcAmpProperty::WhiteBalance => self.white_balance,
            VideoProcAmpProperty::BacklightCompensation => self.backlight_compensation,
        }
    }

    fn store(&mut self, p: VideoProcAmpProperty, v: i32)
        ensures
            final(self).as_map() == old(self).as_map().insert(p, v),
    {
        match p {
            VideoProcAmpProperty::Brightness => self.brightness = Some(v),
            VideoProcAmpProperty::Contrast => self.contrast = Some(v),
            VideoProcAmpProperty::Hue => self.hue = Some(v),
            VideoProcAmpProperty::Saturation => self.saturation = Some(v),
            VideoProcAmpProperty::Sharpness => self.sharpness = Some(v),
            VideoProcAmpProperty::Gamma => self.gamma = Some(v),
            VideoProcAmpProperty::ColorEnable => self.color_enable = Some(v),
            VideoProcAmpProperty::WhiteBalance => self.white_balance = Some(v),
            VideoProcAmpProperty::BacklightCompensation => self.backlight_compensation = Some(v),
        }
        assert(self.as_map() =~= old(self).as_map().insert(p, v));
    }
}

/// The video-processing values of a new filter.
pub open spec fn initial_proc_amp() -> Map<VideoProcAmpProperty, i32> {
    map![
        VideoProcAmpProperty::Brightness => 128i32,
        VideoProcAmpProperty::Contrast => 128i32,
        VideoProcAmpProperty::Saturation => 128i32,
        VideoProcAmpProperty::Hue => 0i32,
        VideoProcAmpProperty::Sharpness => 0i32,
        VideoProcAmpProperty::Gamma => 100i32,
    ]
}

/// The range `(min, max, default, step)` of a video-processing property.
pub open spec fn proc_amp_range(p: VideoProcAmpProperty) -> (i32, i32, i32, i32) {
    match p {
        VideoProcAmpProperty::Brightness | VideoProcAmpProperty::Contrast
        | VideoProcAmpProperty::Saturation => (0i32, 255i32, 128i32, 1i32),
        VideoProcAmpProperty::Hue => (-180i32, 180i32, 0i32, 1i32),
        _ => (0i32, 100i32, 50i32, 1i32),
    }
}

/// The formats the filter advertises, in order.
pub open spec fn capabilities() -> Seq<VideoFormat> {
    seq![
        VideoFormat { width: 640, height: 480, fps: 30, media_type: MediaType::RGB24 },
        VideoFormat { width: 1280, height: 720, fps: 30, media_type: MediaType::RGB24 },
        VideoFormat { width: 1920, height: 1080, fps: 30, media_type: MediaType::RGB24 },
        VideoFormat { width: 2560, height: 1440, fps: 30, media_type: MediaType::RGB24 },
    ]
}

/// Mathematical model of a virtual-camera filter.
pub struct VirtualCamFilterView {
    pub state: FilterState,
    pub format: VideoFormat,
    pub frame: Option<VirtualCamFrameView>,
    pub proc_amp: Map<VideoProcAmpProperty, i32>,
    pub name: Seq<char>,
}

/// A new filter: stopped, default format, no frame, initial processing values.
pub open spec fn new_filter() -> VirtualCamFilterView {
    VirtualCamFilterView {
        state: FilterState::Stopped,
        format: default_format(),
        frame: None,
        proc_amp: initial_proc_amp(),
        name: VIRTUAL_CAM_NAME@,
    }
}

/// The filter in state `s`.
pub open spec fn with_state(v: VirtualCamFilterView, s: FilterState) -> VirtualCamFilterView {
    VirtualCamFilterView { state: s, ..v }
}

/// The filter holding `frame` as its pending frame.
pub open spec fn with_frame(v: VirtualCamFilterView, frame: Option<VirtualCamFrameView>) -> VirtualCamFilterView {
    VirtualCamFilterView { frame, ..v }
}

/// The filter with format `format`.
pub open spec fn with_format(v: VirtualCamFilterView, format: VideoFormat) -> VirtualCamFilterView {
    VirtualCamFilterView { format, ..v }
}

/// The filter with property `p` set to `value`.
pub open spec fn with_setting(v: VirtualCamFilterView, p: VideoProcAmpProperty, value: i32) -> VirtualCamFilterView {
    VirtualCamFilterView { proc_amp: v.proc_amp.insert(p, value), ..v }
}

/// The state after `start`, or `None` when the filter is already running.
pub open spec fn started(s: FilterState) -> Option<FilterState> {
    if s == FilterState::Running { None } else { Some(FilterState::Running) }
}

/// The state after `stop`, or `None` when the filter is already stopped.
pub open spec fn stopped(s: FilterState) -> Option<FilterState> {
    if s == FilterState::Stopped { None } else { Some(FilterState::Stopped) }
}

/// The state after `pause`: only a stopped filter becomes paused.
pub open spec fn paused(s: FilterState) -> FilterState {
    if s == FilterState::Stopped { FilterState::Paused } else { s }
}

/// Whether a frame has the dimensions of a format.
pub open spec fn frame_fits(frame: VirtualCamFrameView, format: VideoFormat) -> bool {
    frame.width == format.width && frame.height == format.height
}

/// Whether a format can be set: both dimensions are non-zero.
pub open spec fn format_valid(format: VideoFormat) -> bool {
    format.width != 0 && format.height != 0
}

/// Message of a frame whose dimensions differ from the filter format.
pub open spec fn mismatch_message(frame: VirtualCamFrameView, format: VideoFormat) -> Seq<char> {
    "Frame dimensions "@ + decimal(frame.width as nat) + "x"@ + decimal(frame.height as nat)
        + " do not match filter format "@ + decimal(format.width as nat) + "x"@ + decimal(format.height as nat)
}

fn dimension_mismatch(frame_width: u32, frame_height: u32, width: u32, height: u32) -> (s: String)
    ensures
        s@ == "Frame dimensions "@ + decimal(frame_width as nat) + "x"@ + decimal(frame_height as nat)
            + " do not match filter format "@ + decimal(width as nat) + "x"@ + decimal(height as nat),
{
    let mut m: Vec<char> = Vec::new();
    push_str(&mut m, "Frame dimensions ");
    push_decimal(&mut m, frame_width);
    push_str(&mut m, "x");
    push_decimal(&mut m, frame_height);
    push_str(&mut m, " do not match filter format ");
    push_decimal(&mut m, width);
    push_str(&mut m, "x");
    push_decimal(&mut m, height);
    string_from_chars(&m)
}

/// Virtual camera filter: stream state, format, pending frame and
/// video-processing settings.
pub struct VirtualCamFilter {
    /// Filter state
    state: FilterState,
    /// Current video format
    format: VideoFormat,
    /// Frame buffer for delivering frames
    frame_buffer: Option<VirtualCamFrame>,
    /// Video processing settings
    video_proc_amp: ProcAmpSettings,
    /// Reference count
    ref_count: i32,
    /// Filter name
    name: String,
}

/// The view of an optional virtual-camera frame.
pub open spec fn opt_vc_frame(f: Option<VirtualCamFrame>) -> Option<VirtualCamFrameView> {
    match f {
        Some(fr) => Some(fr@),
        None => None,
    }
}

impl View for VirtualCamFilter {
    type V = VirtualCamFilterView;

    closed spec fn view(&self) -> VirtualCamFilterView {
        VirtualCamFilterView {
            state: self.state,
            format: self.format,
            frame: opt_vc_frame(self.frame_buffer),
            proc_amp: self.video_proc_amp.as_map(),
            name: self.name@,
        }
    }
}

impl VirtualCamFilter {
    /// Create a new virtual camera filter
    pub fn new() -> (f: Self)
        ensures
            f@ == new_filter(),
    {
        let f = VirtualCamFilter {
            state: FilterState::Stopped,
            format: VideoFormat::default(),
            frame_buffer: None,
            video_proc_amp: ProcAmpSettings {
                brightness: Some(128),
                contrast: Some(128),
                hue: Some(0),
                saturation: Some(128),
                sharpness: Some(0),
                gamma: Some(100),
                color_enable: None,
                white_balance: None,
                backlight_compensation: None,
            },
            ref_count: 1,
            name: VIRTUAL_CAM_NAME.to_string(),
        };
        assert(f.video_proc_amp.as_map() =~= initial_proc_amp());
        f
    }

    /// Create a new filter with a specific format
    pub fn with_format(format: VideoFormat) -> (f: Self)
        ensures
            f@ == with_format(new_filter(), format),
    {
        let mut filter = Self::new();
        filter.format = format;
        filter
    }

    /// Get the filter name
    pub fn name(&self) -> (n: &str)
        ensures
            n@ == self@.name,
    {
        self.name.as_str()
    }

    /// Get current filter state
    pub fn get_state(&self) -> (s: FilterState)
        ensures
            s == self@.state,
    {
        self.state
    }

    /// Start the filter; fails when it is already running.
    pub fn start(&mut self) -> (r: Result<(), VirtualCamError>)
        ensures
            r is Ok <==> started(old(self)@.state) is Some,
            r is Ok ==> final(self)@ == with_state(old(self)@, FilterState::Running),
            r is Err ==> final(self)@ == old(self)@,
            r matches Err(e) ==> e is AlreadyRunning,
    {
        if self.state == FilterState::Running {
            return Err(VirtualCamError::AlreadyRunning);
        }
        self.state = FilterState::Running;
        Ok(())
    }

    /// Stop the filter; fails when it is already stopped.
    pub fn stop(&mut self) -> (r: Result<(), VirtualCamError>)
        ensures
            r is Ok <==> stopped(old(self)@.state) is Some,
            r is Ok ==> final(self)@ == with_state(old(self)@, FilterState::Stopped),
            r is Err ==> final(self)@ == old(self)@,
            r matches Err(e) ==> e is NotRunning,
    {
        if self.state == FilterState::Stopped {
            return Err(VirtualCamError::NotRunning);
        }
        self.state = FilterState::Stopped;
        Ok(())
    }

    /// Pause the filter: a stopped filter becomes paused, otherwise nothing changes.
    pub fn pause(&mut self) -> (r: Result<(), VirtualCamError>)
        ensures
            r is Ok,
            final(self)@ == with_state(old(self)@, paused(old(self)@.state)),
    {
        if self.state == FilterState::Stopped {
            self.state = FilterState::Paused;
        }
        Ok(())
    }

    /// Push a frame to the filter, replacing any pending frame; fails when the
    /// frame's dimensions differ from the filter format.
    pub fn push_frame(&mut self, frame: VirtualCamFrame) -> (r: Result<(), VirtualCamError>)
        ensures
            r is Ok <==> frame_fits(frame@, old(self)@.format),
            r is Ok ==> final(self)@ == with_frame(old(self)@, Some(frame@)),
            r is Err ==> final(self)@ == old(self)@,
            r matches Err(e) ==> (e matches VirtualCamError::InvalidFormat(m)
                && m@ == mismatch_message(frame@, old(self)@.format)),
    {
        if frame.width != self.format.width || frame.height != self.format.height {
            return Err(VirtualCamError::InvalidFormat(
                dimension_mismatch(frame.width, frame.height, self.format.width, self.format.height),
            ));
        }
        self.frame_buffer = Some(frame);
        Ok(())
    }

    /// Pop the current frame (for delivery to the output pin), leaving none.
    pub fn pop_frame(&mut self) -> (r: Option<VirtualCamFrame>)
        ensures
            opt_vc_frame(r) == old(self)@.frame,
            final(self)@ == with_frame(old(self)@, None),
    {
        self.frame_buffer.take()
    }

    /// Set the video format directly; fails for a zero dimension.
    pub fn set_format(&mut self, format: VideoFormat) -> (r: Result<(), VirtualCamError>)
        ensures
            r is Ok <==> format_valid(format),
            r is Ok ==> final(self)@ == with_format(old(self)@, format),
            r is Err ==> final(self)@ == old(self)@,
            r matches Err(e) ==> (e matches VirtualCamError::InvalidFormat(m) && m@ == "Invalid dimensions"@),
    {
        if format.width == 0 || format.height == 0 {
            return Err(VirtualCamError::InvalidFormat("Invalid dimensions".to_string()));
        }
        self.format = format;
        Ok(())
    }

    /// Check if a frame is available
    pub fn has_frame(&self) -> (b: bool)
        ensures
            b == self@.frame is Some,
    {
        self.frame_buffer.is_some()
    }

    /// The stream-configuration interface of this filter.
    pub fn iam_stream_config(&mut self) -> (c: VirtualCamIAMStreamConfig<'_>)
        ensures
            (*c.filter)@ == old(self)@,
            *final(self) == *final(c.filter),
    {
        VirtualCamIAMStreamConfig { filter: self }
    }

    /// The video-processing interface of this filter.
    pub fn iam_video_proc_amp(&mut self) -> (c: VirtualCamIAMVideoProcAmp<'_>)
        ensures
            (*c.filter)@ == old(self)@,
            *final(self) == *final(c.filter),
    {
        VirtualCamIAMVideoProcAmp { filter: self }
    }

    /// The property-set interface of this filter.
    pub fn iks_property_set(&self) -> (c: VirtualCamIKsPropertySet<'_>)
        ensures
            c.filter@ == self@,
    {
        VirtualCamIKsPropertySet { filter: self }
    }
}

impl Default for VirtualCamFilter {
    fn default() -> (f: Self)
        ensures
            f@ == new_filter(),
    {
        Self::new()
    }
}

/// IAMStreamConfig wrapper for VirtualCamFilter
pub struct VirtualCamIAMStreamConfig<'a> {
    pub filter: &'a mut VirtualCamFilter,
}

impl<'a> IAMStreamConfig for VirtualCamIAMStreamConfig<'a> {
    fn get_format(&self) -> (r: Result<VideoFormat, VirtualCamError>)
        ensures
            r == Ok::<VideoFormat, VirtualCamError>(old(self.filter)@.format),
    {
        Ok(self.filter.format)
    }

    fn set_format(&mut self, format: VideoFormat) -> (r: Result<(), VirtualCamError>)
        ensures
            *final(final(self).filter) == *final(old(self).filter),
            r is Ok <==> format_valid(format),
            r is Ok ==> final(self).filter@ == with_format(old(self).filter@, format),
            r is Err ==> final(self).filter@ == old(self).filter@,
            r matches Err(e) ==> (e matches VirtualCamError::InvalidFormat(m) && m@ == "Invalid dimensions"@),
    {
        self.filter.set_format(format)
    }

    fn get_capabilities_count(&self) -> (r: Result<usize, VirtualCamError>)
        ensures
            r == Ok::<usize, VirtualCamError>(capabilities().len() as usize),
    {
        // 640x480, 1280x720, 1920x1080, 2560x1440
        Ok(4)
    }

    fn get_capability(&self, index: usize) -> (r: Result<VideoFormat, VirtualCamError>)
        ensures
            r is Ok <==> index < capabilities().len(),
            r matches Ok(f) ==> f == capabilities()[index as int],
            r matches Err(e) ==> (e matches VirtualCamError::InvalidFormat(m) && m@ == "Invalid capability index"@),
    {
        let capabilities = [
            VideoFormat { width: 640, height: 480, fps: 30, media_type: MediaType::RGB24 },
            VideoFormat { width: 1280, height: 720, fps: 30, media_type: MediaType::RGB24 },
            VideoFormat { width: 1920, height: 1080, fps: 30, media_type: MediaType::RGB24 },
            VideoFormat { width: 2560, height: 1440, fps: 30, media_type: MediaType::RGB24 },
        ];
        if index < 4 {
            Ok(capabilities[index])
        } else {
            Err(VirtualCamError::InvalidFormat("Invalid capability index".to_string()))
        }
    }
}

/// IAMVideoProcAmp wrapper for VirtualCamFilter
pub struct VirtualCamIAMVideoProcAmp<'a> {
    pub filter: &'a mut VirtualCamFilter,
}

fn range_of(property: VideoProcAmpProperty) -> (r: (i32, i32, i32, i32))
    ensures
        r == proc_amp_range(property),
{
    match property {
        VideoProcAmpProperty::Brightness | VideoProcAmpProperty::Contrast
        | VideoProcAmpProperty::Saturation => (0, 255, 128, 1),
        VideoProcAmpProperty::Hue => (-180, 180, 0, 1),
        VideoProcAmpProperty::Sharpness | VideoProcAmpProperty::Gamma => (0, 100, 50, 1),
        _ => (0, 100, 50, 1),
    }
}

/// Message of a value outside the range of a property.
pub open spec fn out_of_range_message(value: i32, min: i32, max: i32) -> Seq<char> {
    "Value "@ + signed_decimal(value as int) + " out of range ["@ + signed_decimal(min as int) + ", "@
        + signed_decimal(max as int) + "]"@
}

/// Decimal rendering of an integer, with a leading minus sign when negative.
pub open spec fn signed_decimal(v: int) -> Seq<char> {
    if v < 0 { seq!['-'] + decimal((-v) as nat) } else { decimal(v as nat) }
}

fn push_signed_decimal(out: &mut Vec<char>, v: i32)
    ensures
        final(out)@ == old(out)@ + signed_decimal(v as int),
{
    if v < 0 {
        out.push('-');
        let magnitude: u32 = if v == i32::MIN { 2147483648u32 } else { (-v) as u32 };
        let ghost before = out@;
        push_decimal(out, magnitude);
        assert(out@ =~= old(out)@ + (seq!['-'] + decimal((-v) as nat)));
    } else {
        push_decimal(out, v as u32);
    }
}

fn out_of_range(value: i32, min: i32, max: i32) -> (s: String)
    ensures
        s@ == out_of_range_message(value, min, max),
{
    let mut m: Vec<char> = Vec::new();
    push_str(&mut m, "Value ");
    push_signed_decimal(&mut m, value);
    push_str(&mut m, " out of range [");
    push_signed_decimal(&mut m, min);
    push_str(&mut m, ", ");
    push_signed_decimal(&mut m, max);
    push_str(&mut m, "]");
    string_from_chars(&m)
}

impl<'a> IAMVideoProcAmp for VirtualCamIAMVideoProcAmp<'a> {
    fn get_range(&self, property: VideoProcAmpProperty) -> (r: Result<(i32, i32, i32, i32), VirtualCamError>)
        ensures
            r == Ok::<(i32, i32, i32, i32), VirtualCamError>(proc_amp_range(property)),
    {
        Ok(range_of(property))
    }

    fn get(&self, property: VideoProcAmpProperty) -> (r: Result<i32, VirtualCamError>)
        ensures
            r is Ok <==> old(self.filter)@.proc_amp.dom().contains(property),
            r matches Ok(v) ==> v == old(self.filter)@.proc_amp[property],
            r matches Err(e) ==> (e matches VirtualCamError::InvalidFormat(m) && m@ == "Property not found"@),
    {
        match self.filter.video_proc_amp.lookup(property) {
            Some(v) => Ok(v),
            None => Err(VirtualCamError::InvalidFormat("Property not found".to_string())),
        }
    }

    fn set(&mut self, property: VideoProcAmpProperty, value: i32, flags: VideoProcAmpFlags) -> (r: Result<(), VirtualCamError>)
        ensures
            *final(final(self).filter) == *final(old(self).filter),
            r is Ok <==> proc_amp_range(property).0 <= value <= proc_amp_range(property).1,
            r is Ok ==> final(self).filter@ == with_setting(old(self).filter@, property, value),
            r is Err ==> final(self).filter@ == old(self).filter@,
            r matches Err(e) ==> (e matches VirtualCamError::InvalidFormat(m)
                && m@ == out_of_range_message(value, proc_amp_range(property).0, proc_amp_range(property).1)),
    {
        let (min, max, _, _) = range_of(property);
        if value < min || value > max {
            return Err(VirtualCamError::InvalidFormat(out_of_range(value, min, max)));
        }
        self.filter.video_proc_amp.store(property, value);
        Ok(())
    }
}

/// IKsPropertySet wrapper for VirtualCamFilter
pub struct VirtualCamIKsPropertySet<'a> {
    pub filter: &'a VirtualCamFilter,
}

impl<'a> IKsPropertySet for VirtualCamIKsPropertySet<'a> {
    fn set(&self, guid: &str, prop_id: u32, data: &[u8]) -> (r: Result<(), VirtualCamError>)
        ensures
            r is Ok,
    {
        Ok(())
    }

    fn get(&self, guid: &str, prop_id: u32, data: &mut [u8]) -> (r: Result<usize, VirtualCamError>)
        ensures
            r == Ok::<usize, VirtualCamError>(0),
            final(data)@ == old(data)@,
    {
        Ok(0)
    }

    fn query_supported(&self, guid: &str, prop_id: u32) -> (r: Result<bool, VirtualCamError>)
        ensures
            r == Ok::<bool, VirtualCamError>(false),
    {
        Ok(false)
    }
}

} // verus!

verus! {

/// A filter registered under a name.
struct NamedFilter {
    name: String,
    filter: VirtualCamFilter,
}

/// No two entries share a name.
closed spec fn names_distinct(entries: Seq<NamedFilter>) -> bool {
    forall|i: int, j: int|
        0 <= i < entries.len() && 0 <= j < entries.len() && i != j
            ==> #[trigger] entries[i].name@ != #[trigger] entries[j].name@
}

/// Whether some entry has name `k`.
closed spec fn has_entry(entries: Seq<NamedFilter>, k: Seq<char>) -> bool {
    exists|i: int| 0 <= i < entries.len() && #[trigger] entries[i].name@ == k
}

/// The filters keyed by name.
closed spec fn entries_map(entries: Seq<NamedFilter>) -> Map<Seq<char>, VirtualCamFilterView> {
    Map::new(
        |k: Seq<char>| has_entry(entries, k),
        |k: Seq<char>| entries[choose|i: int| 0 <= i < entries.len() && #[trigger] entries[i].name@ == k].filter@,
    )
}

proof fn lemma_entries_map_at(entries: Seq<NamedFilter>, i: int)
    requires
        names_distinct(entries),
        0 <= i < entries.len(),
    ensures
        entries_map(entries).dom().contains(entries[i].name@),
        entries_map(entries)[entries[i].name@] == entries[i].filter@,
{
    let k = entries[i].name@;
    assert(has_entry(entries, k));
    let j = choose|j: int| 0 <= j < entries.len() && #[trigger] entries[j].name@ == k;
    assert(j == i);
}

proof fn lemma_entries_map_eq(entries: Seq<NamedFilter>, m: Map<Seq<char>, VirtualCamFilterView>)
    requires
        names_distinct(entries),
        forall|i: int| 0 <= i < entries.len() ==> #[trigger] m.dom().contains(entries[i].name@)
            && m[entries[i].name@] == entries[i].filter@,
        forall|k: Seq<char>| #[trigger] m.dom().contains(k) ==> has_entry(entries, k),
    ensures
        entries_map(entries) == m,
{
    assert forall|k: Seq<char>| #[trigger] entries_map(entries).dom().contains(k) <==> m.dom().contains(k) by {
        if has_entry(entries, k) {
            let i = choose|i: int| 0 <= i < entries.len() && #[trigger] entries[i].name@ == k;
            assert(m.dom().contains(entries[i].name@));
        }
    }
    assert forall|k: Seq<char>| #[trigger] entries_map(entries).dom().contains(k) implies entries_map(entries)[k] == m[k] by {
        let i = choose|i: int| 0 <= i < entries.len() && #[trigger] entries[i].name@ == k;
        lemma_entries_map_at(entries, i);
    }
    assert(entries_map(entries) =~= m);
}

proof fn lemma_entries_replace(entries: Seq<NamedFilter>, i: int, f: VirtualCamFilter)
    requires
        names_distinct(entries),
        0 <= i < entries.len(),
    ensures
        names_distinct(entries.update(i, NamedFilter { name: entries[i].name, filter: f })),
        entries_map(entries.update(i, NamedFilter { name: entries[i].name, filter: f }))
            == entries_map(entries).insert(entries[i].name@, f@),
{
    let es = entries.update(i, NamedFilter { name: entries[i].name, filter: f });
    let m = entries_map(entries).insert(entries[i].name@, f@);
    assert forall|a: int, b: int|
        0 <= a < es.len() && 0 <= b < es.len() && a != b
            implies #[trigger] es[a].name@ != #[trigger] es[b].name@ by {
        assert(entries[a].name@ == es[a].name@ && entries[b].name@ == es[b].name@);
    }
    assert forall|j: int| 0 <= j < es.len() implies #[trigger] m.dom().contains(es[j].name@)
        && m[es[j].name@] == es[j].filter@ by {
        if j != i {
            lemma_entries_map_at(entries, j);
        }
    }
    assert forall|k: Seq<char>| #[trigger] m.dom().contains(k) implies has_entry(es, k) by {
        if k == entries[i].name@ {
            assert(es[i].name@ == k);
        } else {
            let j = choose|j: int| 0 <= j < entries.len() && #[trigger] entries[j].name@ == k;
            assert(es[j].name@ == k);
        }
    }
    lemma_entries_map_eq(es, m);
}

/// Mathematical model of a virtual-camera manager.
pub struct VirtualCamManagerView {
    pub filters: Map<Seq<char>, VirtualCamFilterView>,
    pub registered: bool,
}

/// The filter that `get_or_create_filter` hands out for `name`: the one held
/// under that name, or a new filter.
pub open spec fn filter_for(filters: Map<Seq<char>, VirtualCamFilterView>, name: Seq<char>) -> VirtualCamFilterView {
    if filters.dom().contains(name) { filters[name] } else { new_filter() }
}

/// Virtual camera manager for controlling multiple virtual cameras
pub struct VirtualCamManager {
    /// Active filters
    filters: Vec<NamedFilter>,
    /// Registration state
    registered: bool,
}

impl View for VirtualCamManager {
    type V = VirtualCamManagerView;

    closed spec fn view(&self) -> VirtualCamManagerView {
        VirtualCamManagerView { filters: entries_map(self.filters@), registered: self.registered }
    }
}

impl VirtualCamManager {
    /// The manager's internal consistency: one filter per name.
    pub closed spec fn well_formed(&self) -> bool {
        names_distinct(self.filters@)
    }

    fn find(&self, name: &String) -> (r: Option<usize>)
        ensures
            match r {
                Some(i) => i < self.filters.len() && self.filters@[i as int].name@ == name@,
                None => !has_entry(self.filters@, name@),
            },
    {
        let n = self.filters.len();
        for i in 0..n
            invariant
                n == self.filters.len(),
                forall|j: int| 0 <= j < i ==> #[trigger] self.filters@[j].name@ != name@,
        {
            if self.filters[i].name == *name {
                return Some(i);
            }
        }
        None
    }

    /// Create a new virtual camera manager
    pub fn new() -> (m: Self)
        ensures
            m.well_formed(),
            m@ == (VirtualCamManagerView { filters: Map::empty(), registered: false }),
    {
        let m = VirtualCamManager { filters: Vec::new(), registered: false };
        assert(entries_map(m.filters@) =~= Map::empty());
        m
    }

    /// Register the virtual camera with the system; registering again does nothing.
    pub fn register(&mut self) -> (r: Result<(), VirtualCamError>)
        requires
            old(self).well_formed(),
        ensures
            final(self).well_formed(),
            r is Ok,
            final(self)@ == (VirtualCamManagerView { registered: true, ..old(self)@ }),
    {
        if self.registered {
            return Ok(());
        }
        self.registered = true;
        Ok(())
    }

    /// Unregister the virtual camera from the system; unregistering again does nothing.
    pub fn unregister(&mut self) -> (r: Result<(), VirtualCamError>)
        requires
            old(self).well_formed(),
        ensures
            final(self).well_formed(),
            r is Ok,
            final(self)@ == (VirtualCamManagerView { registered: false, ..old(self)@ }),
    {
        if !self.registered {
            return Ok(());
        }
        self.registered = false;
        Ok(())
    }

    /// Check if the virtual camera is registered
    pub fn is_registered(&self) -> (b: bool)
        ensures
            b == self@.registered,
    {
        self.registered
    }

    /// The filter held under `name`, created when there is none yet.
    pub fn get_or_create_filter(&mut self, name: &str) -> (f: &mut VirtualCamFilter)
        requires
            old(self).well_formed(),
        ensures
            final(self).well_formed(),
            (*f)@ == filter_for(old(self)@.filters, name@),
            final(self)@ == (VirtualCamManagerView {
                filters: old(self)@.filters.insert(name@, (*final(f))@),
                ..old(self)@
            }),
    {
        let key = name.to_string();
        let ghost old_entries = self.filters@;
        let i = match self.find(&key) {
            Some(i) => {
                proof { lemma_entries_map_at(old_entries, i as int); }
                i
            },
            None => {
                self.filters.push(NamedFilter { name: key, filter: VirtualCamFilter::new() });
                proof {
                    let es = self.filters@;
                    let n = old_entries.len() as int;
                    assert forall|a: int, b: int|
                        0 <= a < es.len() && 0 <= b < es.len() && a != b
                            implies #[trigger] es[a].name@ != #[trigger] es[b].name@ by {
                        if a < n && b < n {
                            assert(old_entries[a] == es[a] && old_entries[b] == es[b]);
                        } else if a < n {
                            assert(old_entries[a] == es[a]);
                        } else {
                            assert(old_entries[b] == es[b]);
                        }
                    }
                }
                self.filters.len() - 1
            },
        };
        proof {
            let es = self.filters@;
            assert(entries_map(es) == entries_map(old_entries).insert(name@, es[i as int].filter@)) by {
                let m = entries_map(old_entries).insert(name@, es[i as int].filter@);
                assert forall|j: int| 0 <= j < es.len() implies #[trigger] m.dom().contains(es[j].name@)
                    && m[es[j].name@] == es[j].filter@ by {
                    if j != i && j < old_entries.len() {
                        assert(old_entries[j] == es[j]);
                        lemma_entries_map_at(old_entries, j);
                    }
                }
                assert forall|k: Seq<char>| #[trigger] m.dom().contains(k) implies has_entry(es, k) by {
                    if k == name@ {
                        assert(es[i as int].name@ == k);
                    } else {
                        let j = choose|j: int| 0 <= j < old_entries.len() && #[trigger] old_entries[j].name@ == k;
                        assert(es[j] == old_entries[j]);
                    }
                }
                lemma_entries_map_eq(es, m);
            }
            assert forall|f: VirtualCamFilter| #![trigger es.update(i as int, NamedFilter { name: es[i as int].name, filter: f })]
                names_distinct(es.update(i as int, NamedFilter { name: es[i as int].name, filter: f }))
                && entries_map(es.update(i as int, NamedFilter { name: es[i as int].name, filter: f }))
                    == entries_map(old_entries).insert(name@, f@) by {
                lemma_entries_replace(es, i as int, f);
                assert(entries_map(es).insert(name@, f@) =~= entries_map(old_entries).insert(name@, f@));
            }
        }
        &mut self.filters[i].filter
    }

    /// Get the default filter, the one named after the virtual camera.
    pub fn get_default_filter(&mut self) -> (f: &mut VirtualCamFilter)
        requires
            old(self).well_formed(),
        ensures
            final(self).well_formed(),
            (*f)@ == filter_for(old(self)@.filters, VIRTUAL_CAM_NAME@),
            final(self)@ == (VirtualCamManagerView {
                filters: old(self)@.filters.insert(VIRTUAL_CAM_NAME@, (*final(f))@),
                ..old(self)@
            }),
    {
        self.get_or_create_filter(VIRTUAL_CAM_NAME)
    }

    /// Remove a filter by name; removing an absent name does nothing.
    pub fn remove_filter(&mut self, name: &str) -> (r: Result<(), VirtualCamError>)
        requires
            old(self).well_formed(),
        ensures
            final(self).well_formed(),
            r is Ok,
            final(self)@ == (VirtualCamManagerView { filters: old(self)@.filters.remove(name@), ..old(self)@ }),
    {
        let key = name.to_string();
        let ghost old_entries = self.filters@;
        let ghost m = entries_map(old_entries).remove(name@);
        match self.find(&key) {
            Some(i) => {
                self.filters.remove(i);
                proof {
                    let es = self.filters@;
                    assert(es =~= old_entries.remove(i as int));
                    assert forall|a: int, b: int|
                        0 <= a < es.len() && 0 <= b < es.len() && a != b
                            implies #[trigger] es[a].name@ != #[trigger] es[b].name@ by {
                        let a0 = if a < i { a } else { a + 1 };
                        let b0 = if b < i { b } else { b + 1 };
                        assert(old_entries[a0] == es[a] && old_entries[b0] == es[b]);
                    }
                    assert forall|j: int| 0 <= j < es.len() implies #[trigger] m.dom().contains(es[j].name@)
                        && m[es[j].name@] == es[j].filter@ by {
                        let j0 = if j < i { j } else { j + 1 };
                        assert(old_entries[j0] == es[j]);
                        lemma_entries_map_at(old_entries, j0);
                        assert(j0 != i);
                    }
                    assert forall|k: Seq<char>| #[trigger] m.dom().contains(k) implies has_entry(es, k) by {
                        let j = choose|j: int| 0 <= j < old_entries.len() && #[trigger] old_entries[j].name@ == k;
                        assert(j != i);
                        let j1 = if j < i { j } else { j - 1 };
                        assert(es[j1] == old_entries[j]);
                    }
                    lemma_entries_map_eq(es, m);
                }
            },
            None => {
                proof {
                    assert(entries_map(old_entries) =~= m);
                }
            },
        }
        Ok(())
    }
}

impl Default for VirtualCamManager {
    fn default() -> (m: Self)
        ensures
            m.well_formed(),
            m@ == (VirtualCamManagerView { filters: Map::empty(), registered: false }),
    {
        Self::new()
    }
}

} // verus!

verus! {

/// A frame that fits the format, pushed and then popped, is handed back
/// unchanged, and the filter is left as it was before the push but without
/// a pending frame.
pub proof fn law_push_then_pop(v: VirtualCamFilterView, frame: VirtualCamFrameView)
    requires
        frame_fits(frame, v.format),
    ensures
        with_frame(v, Some(frame)).frame == Some(frame),
        with_frame(with_frame(v, Some(frame)), None) == with_frame(v, None),
{
}

/// A valid format, once set, is the format read back; nothing else changes.
pub proof fn law_set_then_get_format(v: VirtualCamFilterView, format: VideoFormat)
    requires
        format_valid(format),
    ensures
        with_format(v, format).format == format,
        with_format(v, format).state == v.state,
        with_format(v, format).frame == v.frame,
        with_format(v, format).proc_amp == v.proc_amp,
{
}

/// A property value within range, once set, is the value read back, and no
/// other property changes.
pub proof fn law_set_then_get_setting(v: VirtualCamFilterView, p: VideoProcAmpProperty, value: i32, q: VideoProcAmpProperty)
    requires
        proc_amp_range(p).0 <= value <= proc_amp_range(p).1,
    ensures
        with_setting(v, p, value).proc_amp.dom().contains(p),
        with_setting(v, p, value).proc_amp[p] == value,
        q != p ==> (with_setting(v, p, value).proc_amp.dom().contains(q) == v.proc_amp.dom().contains(q)),
        q != p && v.proc_amp.dom().contains(q) ==> with_setting(v, p, value).proc_amp[q] == v.proc_amp[q],
{
}

/// The ranges `(min, max, default, step)` of the video-processing
/// properties: 0..255 around 128 for brightness, contrast and saturation,
/// -180..180 around 0 for hue, and 0..100 around 50 for every other property
/// (sharpness, gamma, ...). A value is accepted exactly within its range, so
/// sharpness or gamma above 100 is refused.
pub proof fn law_proc_amp_ranges(p: VideoProcAmpProperty, value: i32)
    ensures
        (p == VideoProcAmpProperty::Brightness || p == VideoProcAmpProperty::Contrast
            || p == VideoProcAmpProperty::Saturation) ==> proc_amp_range(p) == (0i32, 255i32, 128i32, 1i32),
        p == VideoProcAmpProperty::Hue ==> proc_amp_range(p) == (-180i32, 180i32, 0i32, 1i32),
        (p == VideoProcAmpProperty::Sharpness || p == VideoProcAmpProperty::Gamma
            || p == VideoProcAmpProperty::ColorEnable || p == VideoProcAmpProperty::WhiteBalance
            || p == VideoProcAmpProperty::BacklightCompensation) ==> proc_amp_range(p) == (0i32, 100i32, 50i32, 1i32),
        (p == VideoProcAmpProperty::Sharpness || p == VideoProcAmpProperty::Gamma)
            ==> (proc_amp_range(p).0 <= value <= proc_amp_range(p).1 <==> 0 <= value <= 100),
{
}

/// Every default value of a property lies in that property's range, and a new
/// filter holds the default value of brightness, contrast and saturation.
pub proof fn law_initial_settings_in_range(p: VideoProcAmpProperty)
    requires
        initial_proc_amp().dom().contains(p),
    ensures
        proc_amp_range(p).0 <= initial_proc_amp()[p] <= proc_amp_range(p).1,
        (p == VideoProcAmpProperty::Brightness || p == VideoProcAmpProperty::Contrast
            || p == VideoProcAmpProperty::Saturation) ==> initial_proc_amp()[p] == proc_amp_range(p).2,
{
}

/// Starting a filter that is not running and then stopping it leaves it
/// stopped; a running filter cannot be started and a stopped one cannot be
/// stopped.
pub proof fn law_start_stop(s: FilterState)
    ensures
        s != FilterState::Running ==> started(s) == Some(FilterState::Running),
        stopped(FilterState::Running) == Some(FilterState::Stopped),
        started(FilterState::Running) is None,
        stopped(FilterState::Stopped) is None,
{
}

/// Pausing twice is pausing once, and pausing never makes a filter run.
pub proof fn law_pause_idempotent(s: FilterState)
    ensures
        paused(paused(s)) == paused(s),
        paused(s) == FilterState::Running ==> s == FilterState::Running,
{
}

/// Asking the manager twice for the same name hands out the same filter: the
/// second time, the filter as the first caller left it.
pub proof fn law_same_filter_twice(
    filters: Map<Seq<char>, VirtualCamFilterView>,
    name: Seq<char>,
    left: VirtualCamFilterView,
)
    ensures
        filter_for(filters.insert(name, left), name) == left,
{
}

/// A capability index is accepted exactly when it is below the number of capabilities.
pub proof fn law_capability_count(index: int)
    ensures
        (0 <= index < capabilities().len()) <==> (0 <= index < 4),
{
}

} // verus!
