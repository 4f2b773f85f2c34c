//! Error types of the camera layer and of the quality engine.

use vstd::prelude::*;
use vstd::string::StringExecFns;

verus! {

/// Errors of camera initialisation, permission and capture, each with a message.
#[derive(Debug, Clone, PartialEq, Eq)]
pub enum CameraError {
    InitializationError(String),
    PermissionDenied(String),
    CaptureError(String),
}

impl CameraError {
    /// The message carried by the error.
    pub open spec fn spec_message(&self) -> Seq<char> {
        match self {
            CameraError::InitializationError(msg) => msg@,
            CameraError::PermissionDenied(msg) => msg@,
            CameraError::CaptureError(msg) => msg@,
        }
    }

    /// The text that introduces the message of each kind of error.
    pub open spec fn spec_prefix(&self) -> Seq<char> {
        match self {
            CameraError::InitializationError(_) => "Camera initialization error: "@,
            CameraError::PermissionDenied(_) => "Permission denied: "@,
            CameraError::CaptureError(_) => "Capture error: "@,
        }
    }

    /// The display form of the error: the prefix of its kind, then its message.
    pub fn to_string(&self) -> (text: String)
        ensures
            text@ == self.spec_prefix() + self.spec_message(),
    {
        match self {
            CameraError::InitializationError(msg) => "Camera initialization error: "
                .to_string()
                .concat(msg.as_str()),
            CameraError::PermissionDenied(msg) => "Permission denied: ".to_string().concat(
                msg.as_str(),
            ),
            CameraError::CaptureError(msg) => "Capture error: ".to_string().concat(msg.as_str()),
        }
    }
}

/// Why the quality engine could not deliver a result.
#[derive(Debug, Clone, Copy, PartialEq, Eq, Structural)]
pub enum QualityError {
    /// The frame has no pixels, or its buffer does not hold three bytes per pixel.
    InvalidFrame,
    /// A threshold of the configuration lies outside the range of scores.
    InvalidConfig,
    /// No attempt of a best-of-N capture produced a frame.
    NoValidFrames,
    /// The time budget of a threshold-gated capture ran out before a
    /// frame reached the threshold (in millionths); `attempts` were made
    /// in the `elapsed_seconds` that had passed.
    Timeout { timeout_seconds: u32, threshold: u64, attempts: u32, elapsed_seconds: u64 },
    /// All `attempts` of a threshold-gated capture stayed below the
    /// threshold (in millionths); they took `elapsed_seconds`.
    ThresholdNotMet { threshold: u64, attempts: u32, elapsed_seconds: u64 },
    /// No sample of a trend analysis produced a frame.
    NoSamples,
}

} // verus!
