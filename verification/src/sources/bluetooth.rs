//! GoPro Bluetooth source: remote control and status over BLE. Scanning,
//! commands and battery reads are not implemented by the device layer yet;
//! the source tracks the connection state and the device address.
use vstd::prelude::*;
use crate::source_bus::SourceError;

verus! {

/// The interface of Bluetooth-style sources: connection and raw frames.
pub trait SourceBus {
    /// Connect to the source and begin streaming
    fn connect(&mut self) -> Result<(), SourceError>;

    /// Disconnect from the source
    fn disconnect(&mut self) -> Result<(), SourceError>;

    /// Check if currently connected
    fn is_connected(&self) -> bool;

    /// Get the next frame as raw bytes
    fn next_frame(&mut self) -> Result<Vec<u8>, SourceError>;
}

/// Bluetooth device configuration
#[derive(Debug)]
pub struct BluetoothConfig {
    /// Device address (MAC) of the GoPro camera
    pub device_address: Option<String>,
    /// Scan timeout in seconds
    pub scan_timeout_secs: u8,
}

impl Default for BluetoothConfig {
    fn default() -> (c: Self)
        ensures
            c.device_address is None,
            c.scan_timeout_secs == 10,
    {
        BluetoothConfig { device_address: None, scan_timeout_secs: 10 }
    }
}

/// Mathematical model of a Bluetooth source.
pub struct BluetoothSourceView {
    pub device_address: Option<Seq<char>>,
    pub scan_timeout_secs: u8,
    pub connected: bool,
}

/// Bluetooth Source for GoPro remote control
pub struct BluetoothSource {
    config: BluetoothConfig,
    connected: bool,
}

impl View for BluetoothSource {
    type V = BluetoothSourceView;

    closed spec fn view(&self) -> BluetoothSourceView {
        BluetoothSourceView {
            device_address: match self.config.device_address {
                Some(a) => Some(a@),
                None => None,
            },
            scan_timeout_secs: self.config.scan_timeout_secs,
            connected: self.connected,
        }
    }
}

impl BluetoothSource {
    /// A connected source has a device address: connections are made to a
    /// stored address, and disconnecting forgets it.
    #[verifier::type_invariant]
    spec fn connection_has_address(self) -> bool {
        self.connected ==> self.config.device_address is Some
    }

    /// Create a new Bluetooth source with default configuration
    pub fn new() -> (s: Self)
        ensures
            s@ == (BluetoothSourceView { device_address: None, scan_timeout_secs: 10, connected: false }),
    {
        BluetoothSource { config: BluetoothConfig::default(), connected: false }
    }

    /// Create a new Bluetooth source with custom configuration
    pub fn with_config(config: BluetoothConfig) -> (s: Self)
        ensures
            s@.device_address == (match config.device_address { Some(a) => Some(a@), None => None::<Seq<char>> }),
            s@.scan_timeout_secs == config.scan_timeout_secs,
            !s@.connected,
    {
        BluetoothSource { config, connected: false }
    }

    /// Scan for available Bluetooth devices; scanning finds no device yet.
    pub fn scan_devices(&self) -> (r: Result<Vec<String>, SourceError>)
        ensures
            r matches Ok(v) && v.len() == 0,
    {
        Ok(Vec::new())
    }

    /// Connect to a specific device by address
    pub fn connect_to_device(&mut self, address: String) -> (r: Result<(), SourceError>)
        ensures
            r is Ok,
            final(self)@ == (BluetoothSourceView { device_address: Some(address@), connected: true, ..old(self)@ }),
    {
        self.config.device_address = Some(address);
        self.connected = true;
        Ok(())
    }

    /// Send a command to the camera; fails when not connected.
    pub fn send_command(&self, command: &[u8]) -> (r: Result<(), SourceError>)
        ensures
            r is Ok <==> self@.connected,
            r matches Err(e) ==> (e matches SourceError::Message(m) && m@ == "Not connected to any device"@),
    {
        if !self.connected {
            return Err(SourceError::Message("Not connected to any device".to_string()));
        }
        Ok(())
    }

    /// Battery level of the camera; fails when not connected. Reading the
    /// level is not implemented yet and gives 0.
    pub fn get_battery_status(&self) -> (r: Result<u8, SourceError>)
        ensures
            r is Ok <==> self@.connected,
            r matches Ok(level) ==> level == 0,
            r matches Err(e) ==> (e matches SourceError::Message(m) && m@ == "Not connected to any device"@),
    {
        if !self.connected {
            return Err(SourceError::Message("Not connected to any device".to_string()));
        }
        Ok(0)
    }
}

impl Default for BluetoothSource {
    fn default() -> (s: Self)
        ensures
            s@ == (BluetoothSourceView { device_address: None, scan_timeout_secs: 10, connected: false }),
    {
        Self::new()
    }
}

impl SourceBus for BluetoothSource {
    /// Connects to the configured device; without one, scans and fails when
    /// no device is found.
    fn connect(&mut self) -> (r: Result<(), SourceError>)
        ensures
            r is Ok <==> old(self)@.device_address is Some,
            r is Ok ==> final(self)@ == (BluetoothSourceView { connected: true, ..old(self)@ }),
            r is Err ==> final(self)@ == old(self)@,
            r is Err ==> !final(self)@.connected,
            r matches Err(e) ==> (e matches SourceError::Message(m) && m@ == "No Bluetooth devices found"@),
    {
        proof { use_type_invariant(&*self); }
        match &self.config.device_address {
            Some(address) => {
                let a = address.clone();
                self.connect_to_device(a)
            },
            None => {
                let devices = match self.scan_devices() {
                    Ok(d) => d,
                    Err(e) => return Err(e),
                };
                if devices.len() == 0 {
                    return Err(SourceError::Message("No Bluetooth devices found".to_string()));
                }
                self.connected = true;
                Ok(())
            },
        }
    }

    /// Disconnects and forgets the device address.
    fn disconnect(&mut self) -> (r: Result<(), SourceError>)
        ensures
            r is Ok,
            final(self)@ == (BluetoothSourceView { device_address: None, connected: false, ..old(self)@ }),
    {
        self.connected = false;
        self.config.device_address = None;
        Ok(())
    }

    fn is_connected(&self) -> (b: bool)
        ensures
            b == self@.connected,
            b ==> self@.device_address is Some,
    {
        proof { use_type_invariant(self); }
        self.connected
    }

    /// The source carries no video: an empty frame when connected.
    fn next_frame(&mut self) -> (r: Result<Vec<u8>, SourceError>)
        ensures
            r is Ok <==> old(self)@.connected,
            r matches Ok(v) ==> v.len() == 0,
            r matches Err(e) ==> (e matches SourceError::Message(m)
                && m@ == "Not connected to Bluetooth source. Call connect() first."@),
            final(self)@ == old(self)@,
    {
        if !self.connected {
            return Err(SourceError::Message("Not connected to Bluetooth source. Call connect() first.".to_string()));
        }
        Ok(Vec::new())
    }
}

} // verus!
