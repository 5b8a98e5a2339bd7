//! Errors of the screen-capture commands.
use vstd::prelude::*;

use crate::text::{push_decimal, push_str};

verus! {

/// Why a capture command failed.
#[derive(Debug, Clone, PartialEq, Eq)]
pub enum CaptureError {
    NoMonitors,
    WindowNotFound { id: u32 },
    MonitorNotFound { id: u32 },
    /// The platform capture API failed.
    Os { message: String },
    /// Encoding or decoding pixels failed.
    Encode { message: String },
    /// The capture library (storage) failed.
    Library { message: String },
    ScreenRecordingPermissionDenied,
    /// The preview token no longer names the held snapshot.
    StalePreview,
}

/// The human-readable message of an error.
pub open spec fn spec_capture_message(e: CaptureError) -> Seq<char> {
    match e {
        CaptureError::NoMonitors => "no monitors found"@,
        CaptureError::WindowNotFound { id } => "window not found: "@ + crate::text::decimal(id as nat),
        CaptureError::MonitorNotFound { id } => "monitor not found: "@ + crate::text::decimal(
            id as nat,
        ),
        CaptureError::Os { message } => "xcap error: "@ + message@,
        CaptureError::Encode { message } => "encode error: "@ + message@,
        CaptureError::Library { message } => "library error: "@ + message@,
        CaptureError::ScreenRecordingPermissionDenied => "screen recording permission denied"@,
        CaptureError::StalePreview => "stale preview"@,
    }
}

impl CaptureError {
    /// The human-readable message of this error.
    pub fn message(&self) -> (r: String)
        ensures
            r@ == spec_capture_message(*self),
    {
        let mut s = String::new();
        match self {
            CaptureError::NoMonitors => push_str(&mut s, "no monitors found"),
            CaptureError::WindowNotFound { id } => {
                push_str(&mut s, "window not found: ");
                push_decimal(&mut s, *id as u64);
            },
            CaptureError::MonitorNotFound { id } => {
                push_str(&mut s, "monitor not found: ");
                push_decimal(&mut s, *id as u64);
            },
            CaptureError::Os { message } => {
                push_str(&mut s, "xcap error: ");
                push_str(&mut s, message.as_str());
            },
            CaptureError::Encode { message } => {
                push_str(&mut s, "encode error: ");
                push_str(&mut s, message.as_str());
            },
            CaptureError::Library { message } => {
                push_str(&mut s, "library error: ");
                push_str(&mut s, message.as_str());
            },
            CaptureError::ScreenRecordingPermissionDenied => push_str(
                &mut s,
                "screen recording permission denied",
            ),
            CaptureError::StalePreview => push_str(&mut s, "stale preview"),
        }
        s
    }
}

} // verus!
