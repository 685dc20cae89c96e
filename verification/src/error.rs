//! Errors of the audio domain.

use vstd::prelude::*;

verus! {

/// What went wrong in the audio domain, with a message.
#[derive(Debug, Clone, PartialEq, Eq)]
pub enum CoreError {
    InvalidAudioBuffer(String),
    CaptureError(String),
    PlaybackError(String),
    StreamingError(String),
    TelemetryError(String),
}

} // verus!
