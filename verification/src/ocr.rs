//! Results of text recognition and the status snapshot readers receive.

use vstd::prelude::*;

use crate::clock::current_time_millis;
use crate::region::Region;

verus! {

/// The result of one text-recognition pass: the extracted text and the
/// wall-clock time (milliseconds since the Unix epoch) it was extracted.
#[derive(Debug)]
pub struct OcrResult {
    /// The extracted text.
    pub text: String,
    /// When the text was extracted.
    pub timestamp_ms: i64,
}

impl OcrResult {
    /// Creates a result with the given text and timestamp.
    pub fn new_at(text: String, timestamp_ms: i64) -> (r: OcrResult)
        ensures
            r.text == text,
            r.timestamp_ms == timestamp_ms,
    {
        OcrResult { text, timestamp_ms }
    }

    /// Creates a result with the given text, stamped with the current time.
    pub fn new(text: String) -> (r: OcrResult)
        ensures
            r.text == text,
    {
        let now = current_time_millis();
        OcrResult { text, timestamp_ms: now }
    }

    /// Creates an empty result with the given timestamp.
    pub fn empty_at(timestamp_ms: i64) -> (r: OcrResult)
        ensures
            r.text@ == Seq::<char>::empty(),
            r.timestamp_ms == timestamp_ms,
    {
        OcrResult { text: String::new(), timestamp_ms }
    }

    /// Creates an empty result stamped with the current time.
    pub fn empty() -> (r: OcrResult)
        ensures
            r.text@ == Seq::<char>::empty(),
    {
        let now = current_time_millis();
        OcrResult { text: String::new(), timestamp_ms: now }
    }
}

impl Clone for OcrResult {
    fn clone(&self) -> (r: OcrResult)
        ensures
            r.text@ == self.text@,
            r.timestamp_ms == self.timestamp_ms,
    {
        OcrResult { text: self.text.clone(), timestamp_ms: self.timestamp_ms }
    }
}

/// The snapshot of the engine a status query returns.
#[derive(Debug)]
pub struct StatusResponse {
    /// Whether monitoring is currently active.
    pub is_monitoring: bool,
    /// The currently selected region (if any).
    pub region: Option<Region>,
    /// The most recently extracted text.
    pub last_text: String,
    /// The timestamp of the most recent text extraction.
    pub last_update_ms: i64,
    /// Whether the recognition engine is ready.
    pub ocr_ready: bool,
    /// Whether a latest screenshot is available.
    pub has_screenshot: bool,
}

} // verus!
