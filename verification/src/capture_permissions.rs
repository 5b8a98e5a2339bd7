//! Screen Recording permission, which macOS requires before any pixels can
//! be captured (without it captures silently come back black).
use vstd::prelude::*;

use crate::capture_error::CaptureError;
use crate::platform::Platform;

verus! {

/// Whether the process may capture the screen: on macOS the Screen
/// Recording grant (`preflight`, the OS's preflight answer); elsewhere
/// always.
pub fn screen_recording_granted(platform: Platform, preflight: bool) -> (r: bool)
    ensures
        r == (platform != Platform::MacOs || preflight),
{
    match platform {
        Platform::MacOs => preflight,
        _ => true,
    }
}

/// Whether the OS permission prompt should be raised: on macOS when the
/// grant is missing, so that the app is registered with the OS.
pub fn should_request_screen_recording(platform: Platform, granted: bool) -> (r: bool)
    ensures
        r == (platform == Platform::MacOs && !granted),
{
    platform == Platform::MacOs && !granted
}

/// The check made before every capture: on macOS a missing grant is
/// `ScreenRecordingPermissionDenied`; elsewhere, and with the grant, the
/// capture proceeds.
pub fn require_screen_recording(platform: Platform, granted: bool) -> (r: Result<(), CaptureError>)
    ensures
        platform == Platform::MacOs && !granted ==> r == Err::<(), CaptureError>(
            CaptureError::ScreenRecordingPermissionDenied,
        ),
        platform != Platform::MacOs || granted ==> r is Ok,
{
    if platform == Platform::MacOs && !granted {
        return Err(CaptureError::ScreenRecordingPermissionDenied);
    }
    Ok(())
}

} // verus!
