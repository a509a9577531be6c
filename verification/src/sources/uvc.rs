//! USB (UVC) camera source. Opening the camera and capturing its frames is
//! done by the caller with the camera library; this source holds the
//! configuration, the connection state and the latest frame, and decides
//! which camera is a GoPro.
use vstd::prelude::*;
use crate::source_bus::{FrameMetadata, SourceError};
use crate::text::{contains_chars, contains_seq, str_chars};

verus! {

/// GoPro USB Vendor ID
pub const GOPRO_VID: u16 = 0x0ae4;

/// UVC Source configuration
#[derive(Debug)]
pub struct UvcConfig {
    /// Camera index (0 = first camera in system)
    pub camera_index: u32,
    /// Requested frame width
    pub width: u32,
    /// Requested frame height
    pub height: u32,
    /// Requested frames per second
    pub fps: u32,
    /// Source identifier for frames
    pub source_id: String,
}

impl Default for UvcConfig {
    fn default() -> (c: Self)
        ensures
            c.camera_index == 0,
            c.width == 1920,
            c.height == 1080,
            c.fps == 30,
            c.source_id@ == "gopro-uvc"@,
    {
        UvcConfig { camera_index: 0, width: 1920, height: 1080, fps: 30, source_id: "gopro-uvc".to_string() }
    }
}

/// Mathematical model of a UVC source.
pub struct UvcSourceView {
    pub camera_index: u32,
    pub width: u32,
    pub height: u32,
    pub fps: u32,
    pub source_id: Seq<char>,
    pub connected: bool,
    pub current_frame: Option<Seq<u8>>,
    pub current_metadata: Option<FrameMetadata>,
    /// Set once the source has been told to stop.
    pub stopped: bool,
}

/// UVC Source for capturing from GoPro via USB
pub struct UvcSource {
    config: UvcConfig,
    connected: bool,
    current_frame: Option<Vec<u8>>,
    current_metadata: Option<FrameMetadata>,
    stop_flag: bool,
}

impl View for UvcSource {
    type V = UvcSourceView;

    closed spec fn view(&self) -> UvcSourceView {
        UvcSourceView {
            camera_index: self.config.camera_index,
            width: self.config.width,
            height: self.config.height,
            fps: self.config.fps,
            source_id: self.config.source_id@,
            connected: self.connected,
            current_frame: match self.current_frame {
                Some(d) => Some(d@),
                None => None,
            },
            current_metadata: self.current_metadata,
            stopped: self.stop_flag,
        }
    }
}

/// A source of the given configuration, not connected, with no frame.
pub open spec fn fresh_uvc(camera_index: u32, width: u32, height: u32, fps: u32, source_id: Seq<char>) -> UvcSourceView {
    UvcSourceView {
        camera_index,
        width,
        height,
        fps,
        source_id,
        connected: false,
        current_frame: None,
        current_metadata: None,
        stopped: false,
    }
}

impl UvcSource {
    /// Create a new UVC source with default configuration
    pub fn new() -> (s: Self)
        ensures
            s@ == fresh_uvc(0, 1920, 1080, 30, "gopro-uvc"@),
    {
        Self::with_config(UvcConfig::default())
    }

    /// Create a new UVC source with custom configuration
    pub fn with_config(config: UvcConfig) -> (s: Self)
        ensures
            s@ == fresh_uvc(config.camera_index, config.width, config.height, config.fps, config.source_id@),
    {
        UvcSource { config, connected: false, current_frame: None, current_metadata: None, stop_flag: false }
    }

    /// Create a new UVC source targeting a specific camera index
    pub fn with_index(index: u32) -> (s: Self)
        ensures
            s@ == fresh_uvc(index, 1920, 1080, 30, "gopro-uvc"@),
    {
        let mut config = UvcConfig::default();
        config.camera_index = index;
        Self::with_config(config)
    }

    /// The source's configuration.
    pub fn config(&self) -> (c: &UvcConfig)
        ensures
            c.camera_index == self@.camera_index,
            c.width == self@.width,
            c.height == self@.height,
            c.fps == self@.fps,
            c.source_id@ == self@.source_id,
    {
        &self.config
    }

    /// Records that the camera was opened and its stream started.
    pub fn complete_connect(&mut self)
        ensures
            final(self)@ == (UvcSourceView { connected: true, ..old(self)@ }),
    {
        self.connected = true;
    }

    /// Disconnects: signals the capture to stop and drops the latest frame;
    /// succeeds also when not connected.
    pub fn disconnect(&mut self) -> (r: Result<(), SourceError>)
        ensures
            r is Ok,
            final(self)@ == (UvcSourceView {
                connected: false,
                current_frame: None,
                current_metadata: None,
                stopped: true,
                ..old(self)@
            }),
    {
        self.stop_flag = true;
        self.connected = false;
        self.current_frame = None;
        self.current_metadata = None;
        Ok(())
    }

    /// Check if currently connected
    pub fn is_connected(&self) -> (b: bool)
        ensures
            b == self@.connected,
    {
        self.connected
    }

    /// Whether a frame may be captured: fails when not connected.
    pub fn begin_capture(&self) -> (r: Result<(), SourceError>)
        ensures
            r is Ok <==> self@.connected,
            r matches Err(e) ==> (e matches SourceError::Message(m)
                && m@ == "UVC source not connected. Call connect() first."@),
    {
        if !self.connected {
            return Err(SourceError::Message("UVC source not connected. Call connect() first.".to_string()));
        }
        Ok(())
    }

    /// Keeps a captured, decoded frame as the latest one, with its metadata,
    /// and hands it back.
    pub fn record_frame(&mut self, data: Vec<u8>, width: u32, height: u32, fps_bits: u32) -> (r: Vec<u8>)
        ensures
            r@ == data@,
            final(self)@.current_frame == Some(data@),
            final(self)@.current_metadata matches Some(m)
                && m.width == width && m.height == height && m.fps_bits == fps_bits,
            final(self)@ == (UvcSourceView {
                current_frame: final(self)@.current_frame,
                current_metadata: final(self)@.current_metadata,
                ..old(self)@
            }),
    {
        self.current_frame = Some(data.clone());
        self.current_metadata = Some(FrameMetadata::new(width, height, fps_bits));
        data
    }

    /// Metadata of the latest frame.
    pub fn frame_metadata(&self) -> (m: Option<FrameMetadata>)
        ensures
            m == self@.current_metadata,
    {
        match &self.current_metadata {
            Some(md) => Some(md.clone()),
            None => None,
        }
    }
}

impl Default for UvcSource {
    fn default() -> (s: Self)
        ensures
            s@ == fresh_uvc(0, 1920, 1080, 30, "gopro-uvc"@),
    {
        Self::new()
    }
}

/// What `str::to_lowercase` gives for a text.
pub uninterp spec fn lowercase(text: Seq<char>) -> Seq<char>;

/// The text in lower case, by `str::to_lowercase`.
#[verifier::external_body]
fn to_lowercase(text: &str) -> (r: String)
    ensures
        r@ == lowercase(text@),
{
    text.to_lowercase()
}

/// Whether a camera name, in lower case, names a GoPro.
pub open spec fn names_gopro(name: Seq<char>) -> bool {
    contains_seq(lowercase(name), "gopro"@) || contains_seq(lowercase(name), "hero"@)
}

/// The index of the first camera whose name names a GoPro and whose index is
/// numeric; cameras with a non-numeric index are passed over.
pub open spec fn gopro_camera_index(cameras: Seq<(Seq<char>, Option<u32>)>) -> Option<u32>
    decreases cameras.len(),
{
    if cameras.len() == 0 {
        None
    } else if names_gopro(cameras[0].0) && cameras[0].1 is Some {
        cameras[0].1
    } else {
        gopro_camera_index(cameras.drop_first())
    }
}

/// The views of camera names and indices.
pub open spec fn camera_views(cameras: Seq<(String, Option<u32>)>) -> Seq<(Seq<char>, Option<u32>)> {
    cameras.map_values(|c: (String, Option<u32>)| (c.0@, c.1))
}

/// Find a GoPro among the cameras of the system, given as (name, numeric index) pairs.
pub fn find_gopro_camera(cameras: &Vec<(String, Option<u32>)>) -> (r: Option<u32>)
    ensures
        r == gopro_camera_index(camera_views(cameras@)),
{
    let ghost cv = camera_views(cameras@);
    let gopro = str_chars("gopro");
    let hero = str_chars("hero");
    let n = cameras.len();
    let mut i: usize = 0;
    assert(cv.skip(0) =~= cv);
    while i < n
        invariant
            n == cameras.len(),
            i <= n,
            cv == camera_views(cameras@),
            gopro@ == "gopro"@,
            hero@ == "hero"@,
            gopro_camera_index(cv) == gopro_camera_index(cv.skip(i as int)),
        decreases n - i,
    {
        let lower = to_lowercase(cameras[i].0.as_str());
        let lower_chars = str_chars(lower.as_str());
        let hit = contains_chars(&lower_chars, &gopro) || contains_chars(&lower_chars, &hero);
        proof {
            assert(cv.skip(i as int)[0] == cv[i as int]);
            assert(cv.skip(i as int).drop_first() =~= cv.skip(i + 1));
        }
        if hit {
            match cameras[i].1 {
                Some(index) => return Some(index),
                None => {},
            }
        }
        i = i + 1;
    }
    assert(cv.skip(n as int) =~= Seq::<(Seq<char>, Option<u32>)>::empty());
    None
}

/// A camera that the search takes for a GoPro: a numeric index, and a name
/// whose lower-case form contains "gopro" or "hero".
pub open spec fn gopro_candidate(camera: (Seq<char>, Option<u32>)) -> bool {
    &&& camera.1 is Some
    &&& (contains_seq(lowercase(camera.0), "gopro"@) || contains_seq(lowercase(camera.0), "hero"@))
}

/// The GoPro found is the first candidate in list order, a camera named
/// "HERO..." as much as one named "GoPro..."; without a candidate none is found.
pub proof fn law_first_gopro_found(cameras: Seq<(Seq<char>, Option<u32>)>, k: int)
    ensures
        0 <= k < cameras.len() && gopro_candidate(cameras[k])
            && (forall|j: int| 0 <= j < k ==> !gopro_candidate(#[trigger] cameras[j]))
            ==> gopro_camera_index(cameras) == cameras[k].1,
        (forall|j: int| 0 <= j < cameras.len() ==> !gopro_candidate(#[trigger] cameras[j]))
            ==> gopro_camera_index(cameras) is None,
    decreases cameras.len(),
{
    if cameras.len() > 0 {
        let rest = cameras.drop_first();
        law_first_gopro_found(rest, k - 1);
        if 0 < k < cameras.len() && (forall|j: int| 0 <= j < k ==> !gopro_candidate(#[trigger] cameras[j])) {
            assert(!gopro_candidate(cameras[0]));
            assert forall|j: int| 0 <= j < k - 1 implies !gopro_candidate(#[trigger] rest[j]) by {
                assert(rest[j] == cameras[j + 1]);
            }
            assert(rest[k - 1] == cameras[k]);
        }
        if forall|j: int| 0 <= j < cameras.len() ==> !gopro_candidate(#[trigger] cameras[j]) {
            assert(!gopro_candidate(cameras[0]));
            assert forall|j: int| 0 <= j < rest.len() implies !gopro_candidate(#[trigger] rest[j]) by {
                assert(rest[j] == cameras[j + 1]);
            }
        }
    }
}

/// Whether a device with the GoPro vendor ID is among the USB devices, given
/// as (vendor ID, product ID) pairs.
pub fn detect_gopro_usb(devices: &Vec<(u16, u16)>) -> (found: bool)
    ensures
        found == exists|i: int| 0 <= i < devices.len() && #[trigger] devices@[i].0 == GOPRO_VID,
{
    let n = devices.len();
    for i in 0..n
        invariant
            n == devices.len(),
            forall|j: int| 0 <= j < i ==> #[trigger] devices@[j].0 != GOPRO_VID,
    {
        if devices[i].0 == GOPRO_VID {
            return true;
        }
    }
    false
}

} // verus!
