//! Continuous screen-region text monitoring engine.
//!
//! A caller selects a rectangular region of the screen; a background loop
//! repeatedly captures it, detects visual change with a cheap fingerprint,
//! and re-runs text recognition only when the pixels changed, publishing the
//! latest result and screenshot into a shared state that concurrent readers
//! query. This crate holds the verified core: the shared state and its
//! lifecycle operations, the per-cycle decision logic of the monitor loop,
//! the change fingerprint, and the throttle gate for on-demand screenshots.
//! Screen capture, the recognition engine, and the HTTP layer are external
//! collaborators driven from outside the crate.

pub mod clock;
pub mod config;
pub mod errors;
pub mod fingerprint;
pub mod monitor;
pub mod ocr;
pub mod region;
pub mod screen_capture;
pub mod screenshot;
pub mod state;
pub mod throttle;

pub use config::Config;
pub use errors::MonitorError;
pub use fingerprint::calculate_simple_hash;
pub use monitor::MonitorLoop;
pub use ocr::{OcrResult, StatusResponse};
pub use region::{Region, SetRegionRequest};
pub use screen_capture::{DisplayInfo, RawFrame, ScreenCaptureService};
pub use state::AppState;
pub use throttle::CaptureThrottleGate;
