//! GoPro WiFi streaming source: the camera's RTSP server at
//! `rtsp://<camera-ip>:<port><path>`. Reaching the server is done by the
//! caller; this source holds the configuration and the connection state.
use vstd::prelude::*;
use crate::source_bus::{FrameMetadata, SourceError, FPS_30_BITS};
use crate::text::{decimal, push_decimal, push_str, string_from_chars};

verus! {

/// WiFi connection configuration
#[derive(Debug)]
pub struct WifiConfig {
    /// GoPro camera IP address (default: 10.5.5.1 on the camera's own network)
    pub camera_ip: String,
    /// RTSP port (default: 8554)
    pub rtsp_port: u16,
    /// Stream path (default: /live)
    pub stream_path: String,
}

impl Default for WifiConfig {
    fn default() -> (c: Self)
        ensures
            c.camera_ip@ == "10.5.5.1"@,
            c.rtsp_port == 8554,
            c.stream_path@ == "/live"@,
    {
        WifiConfig { camera_ip: "10.5.5.1".to_string(), rtsp_port: 8554, stream_path: "/live".to_string() }
    }
}

/// Mathematical model of a WiFi source.
pub struct WifiSourceView {
    pub camera_ip: Seq<char>,
    pub rtsp_port: u16,
    pub stream_path: Seq<char>,
    pub connected: bool,
}

/// `ip:port` of a WiFi source's RTSP server.
pub open spec fn server_address_of(v: WifiSourceView) -> Seq<char> {
    v.camera_ip + ":"@ + decimal(v.rtsp_port as nat)
}

/// GoPro WiFi Streaming Source
pub struct WifiSource {
    config: WifiConfig,
    connected: bool,
}

impl View for WifiSource {
    type V = WifiSourceView;

    closed spec fn view(&self) -> WifiSourceView {
        WifiSourceView {
            camera_ip: self.config.camera_ip@,
            rtsp_port: self.config.rtsp_port,
            stream_path: self.config.stream_path@,
            connected: self.connected,
        }
    }
}

impl WifiSource {
    /// Create a new WiFi source with default configuration
    pub fn new() -> (s: Self)
        ensures
            s@ == (WifiSourceView { camera_ip: "10.5.5.1"@, rtsp_port: 8554, stream_path: "/live"@, connected: false }),
    {
        WifiSource { config: WifiConfig::default(), connected: false }
    }

    /// Create a new WiFi source with custom configuration
    pub fn with_config(config: WifiConfig) -> (s: Self)
        ensures
            s@ == (WifiSourceView {
                camera_ip: config.camera_ip@,
                rtsp_port: config.rtsp_port,
                stream_path: config.stream_path@,
                connected: false,
            }),
    {
        WifiSource { config, connected: false }
    }

    /// The stream URL, `rtsp://ip:port/path`.
    pub fn rtsp_url(&self) -> (u: String)
        ensures
            u@ == "rtsp://"@ + server_address_of(self@) + self@.stream_path,
    {
        let mut m: Vec<char> = Vec::new();
        push_str(&mut m, "rtsp://");
        push_str(&mut m, self.config.camera_ip.as_str());
        push_str(&mut m, ":");
        push_decimal(&mut m, self.config.rtsp_port as u32);
        push_str(&mut m, self.config.stream_path.as_str());
        string_from_chars(&m)
    }

    /// The address of the RTSP server, `ip:port`, whose reachability decides a connection.
    pub fn server_address(&self) -> (a: String)
        ensures
            a@ == server_address_of(self@),
    {
        let mut m: Vec<char> = Vec::new();
        push_str(&mut m, self.config.camera_ip.as_str());
        push_str(&mut m, ":");
        push_decimal(&mut m, self.config.rtsp_port as u32);
        string_from_chars(&m)
    }

    /// Completes a connection attempt given whether the RTSP server answered:
    /// the source is connected exactly when it did.
    pub fn complete_connect(&mut self, server_reachable: bool) -> (r: Result<(), SourceError>)
        ensures
            r is Ok <==> server_reachable,
            final(self)@ == (WifiSourceView { connected: server_reachable, ..old(self)@ }),
            r matches Err(e) ==> (e matches SourceError::Message(m)
                && m@ == "Failed to connect to GoPro RTSP server at "@ + server_address_of(old(self)@)),
    {
        if server_reachable {
            self.connected = true;
            Ok(())
        } else {
            self.connected = false;
            let mut m: Vec<char> = Vec::new();
            push_str(&mut m, "Failed to connect to GoPro RTSP server at ");
            push_str(&mut m, self.config.camera_ip.as_str());
            push_str(&mut m, ":");
            push_decimal(&mut m, self.config.rtsp_port as u32);
            Err(SourceError::Message(string_from_chars(&m)))
        }
    }

    /// Disconnect from the source; succeeds also when not connected.
    pub fn disconnect(&mut self) -> (r: Result<(), SourceError>)
        ensures
            r is Ok,
            final(self)@ == (WifiSourceView { connected: false, ..old(self)@ }),
    {
        self.connected = false;
        Ok(())
    }

    /// Check if currently connected
    pub fn is_connected(&self) -> (b: bool)
        ensures
            b == self@.connected,
    {
        self.connected
    }

    /// The next frame: empty while frame reception from the stream is not
    /// implemented; fails when not connected.
    pub fn next_frame(&mut self) -> (r: Result<Vec<u8>, SourceError>)
        ensures
            r is Ok <==> old(self)@.connected,
            r matches Ok(v) ==> v.len() == 0,
            r matches Err(e) ==> (e matches SourceError::Message(m)
                && m@ == "Not connected to WiFi source. Call connect() first."@),
            final(self)@ == old(self)@,
    {
        if !self.connected {
            return Err(SourceError::Message("Not connected to WiFi source. Call connect() first.".to_string()));
        }
        Ok(Vec::new())
    }

    /// Metadata of the stream, 1920x1080 at 30 fps, while connected.
    pub fn frame_metadata(&self) -> (m: Option<FrameMetadata>)
        ensures
            m is Some <==> self@.connected,
            m matches Some(md) ==> md.width == 1920 && md.height == 1080 && md.fps_bits == FPS_30_BITS,
    {
        if self.connected {
            Some(FrameMetadata::new(1920, 1080, FPS_30_BITS))
        } else {
            None
        }
    }
}

impl Default for WifiSource {
    fn default() -> (s: Self)
        ensures
            s@ == (WifiSourceView { camera_ip: "10.5.5.1"@, rtsp_port: 8554, stream_path: "/live"@, connected: false }),
    {
        Self::new()
    }
}

} // verus!
