//! Decisions behind the application's screen-source commands: health,
//! error report and reconnection of the screen capture source.
use vstd::prelude::*;
use crate::source_bus::{SourceBus, SourceError};
use crate::sources::screen::{ScreenCaptureSource, ScreenCaptureView};

verus! {

/// Connection health status for sources
#[derive(Debug, Clone, Copy, PartialEq, Eq, Structural)]
pub enum SourceHealth {
    /// Source is connected and healthy
    Healthy,
    /// Source is connected but showing issues (frame drops, latency)
    Degraded,
    /// Source is disconnected
    Disconnected,
    /// Source is not initialized
    Uninitialized,
}

impl Default for SourceHealth {
    fn default() -> (h: Self)
        ensures
            h == SourceHealth::Uninitialized,
    {
        SourceHealth::Uninitialized
    }
}

/// Health of the screen source, if one was initialized.
pub fn screen_source_health(source: Option<&ScreenCaptureSource>) -> (h: SourceHealth)
    ensures
        h == match source {
            Some(s) => if s@.connected { SourceHealth::Healthy } else { SourceHealth::Disconnected },
            None => SourceHealth::Uninitialized,
        },
{
    match source {
        Some(s) => if s.is_connected() { SourceHealth::Healthy } else { SourceHealth::Disconnected },
        None => SourceHealth::Uninitialized,
    }
}

/// The error to report for the screen source: none while it is connected.
pub fn screen_source_error(source: Option<&ScreenCaptureSource>) -> (e: Option<String>)
    ensures
        match source {
            Some(s) => if s@.connected { e is None } else { e matches Some(m) && m@ == "Source disconnected"@ },
            None => e matches Some(m) && m@ == "Source not initialized"@,
        },
{
    match source {
        Some(s) => {
            if !s.is_connected() {
                return Some("Source disconnected".to_string());
            }
            None
        },
        None => Some("Source not initialized".to_string()),
    }
}

/// Reconnects the screen source: disconnects it when connected, then connects.
pub fn reconnect_screen_source(source: &mut ScreenCaptureSource) -> (r: Result<(), SourceError>)
    ensures
        r is Ok,
        final(source)@ == (ScreenCaptureView {
            connected: true,
            pending: if old(source)@.connected { None } else { old(source)@.pending },
            ..old(source)@
        }),
{
    if source.is_connected() {
        let _ = source.disconnect();
    }
    source.connect()
}

} // verus!
