//! The error taxonomy of the monitoring engine.

use vstd::prelude::*;

verus! {

/// Errors the engine reports synchronously to callers.
///
/// Transient per-cycle failures (a capture or recognition attempt that did
/// not succeed) are not in this taxonomy: the monitor loop absorbs them with
/// a bounded retry and they never propagate to callers, who instead observe
/// stale-but-valid data until the next successful cycle.
#[derive(Clone, Copy, Debug, PartialEq, Eq, Structural)]
pub enum MonitorError {
    /// The caller handed a region whose width or height is not positive.
    InvalidRegion,
    /// Monitoring was requested while no region is set.
    NoRegionSelected,
    /// Screen capture is not supported on this platform.
    NotSupported,
    /// Screen capture permission was denied.
    PermissionDenied,
    /// A captured frame could not be encoded as PNG.
    EncodingFailure,
    /// The recognition engine failed to initialize; fatal for this process
    /// run, the readiness flag stays false until restart.
    EngineInitFailure,
}

impl MonitorError {
    /// The message a caller-facing layer reports for this error.
    pub open spec fn spec_message(self) -> Seq<char> {
        match self {
            MonitorError::InvalidRegion => "Invalid region: dimensions must be positive"@,
            MonitorError::NoRegionSelected => "No region selected"@,
            MonitorError::NotSupported => "Screen capture not supported on this platform"@,
            MonitorError::PermissionDenied => "Screen capture permission denied"@,
            MonitorError::EncodingFailure => "Failed to encode image as PNG"@,
            MonitorError::EngineInitFailure => "Failed to initialize recognition engine"@,
        }
    }

    /// Renders the error as a caller-facing message.
    pub fn message(&self) -> (r: &'static str)
        ensures
            r@ == self.spec_message(),
    {
        match self {
            MonitorError::InvalidRegion => "Invalid region: dimensions must be positive",
            MonitorError::NoRegionSelected => "No region selected",
            MonitorError::NotSupported => "Screen capture not supported on this platform",
            MonitorError::PermissionDenied => "Screen capture permission denied",
            MonitorError::EncodingFailure => "Failed to encode image as PNG",
            MonitorError::EngineInitFailure => "Failed to initialize recognition engine",
        }
    }
}

} // verus!
