//! Runtime classifier: distinguishes bundled-app runs from raw dev runs.
//!
//! On macOS an unpackaged binary run from the build output is denied Screen
//! Recording even when the bundled app was approved, because the grant is
//! tied to the bundle identity.
use vstd::prelude::*;

use crate::platform::Platform;
use crate::text::{contains_seq, str_contains};

verus! {

/// Whether the app runs from a bundled installer or from the build output.
#[derive(Debug, Clone, Copy, PartialEq, Eq, Structural)]
pub enum CaptureRuntimeStatus {
    /// Running inside an `.app` bundle.
    BundledApp,
    /// Running directly from the cargo build output.
    RawDev,
}

/// The path marker of an executable inside a macOS application bundle.
pub open spec fn bundle_marker() -> Seq<char> {
    ".app/Contents/MacOS"@
}

/// Classification of an executable path on a platform: bundled exactly when
/// the platform is macOS and the path runs through an `.app` bundle.
pub open spec fn spec_classify(platform: Platform, exe_path: Seq<char>) -> CaptureRuntimeStatus {
    if platform == Platform::MacOs && contains_seq(exe_path, bundle_marker()) {
        CaptureRuntimeStatus::BundledApp
    } else {
        CaptureRuntimeStatus::RawDev
    }
}

/// Classify the runtime from the executable path `exe_path`.
pub fn classify_from_path(platform: Platform, exe_path: &str) -> (r: CaptureRuntimeStatus)
    ensures
        r == spec_classify(platform, exe_path@),
{
    if platform == Platform::MacOs && str_contains(exe_path, ".app/Contents/MacOS") {
        CaptureRuntimeStatus::BundledApp
    } else {
        CaptureRuntimeStatus::RawDev
    }
}

} // verus!
