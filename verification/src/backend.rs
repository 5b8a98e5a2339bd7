//! The screenshot backends and which one a platform uses.
use vstd::prelude::*;

use crate::capture_error::CaptureError;
use crate::grab::{GrabResult, WindowInfo};
use crate::platform::Platform;

verus! {

/// A platform screenshot facility.
pub trait ScreenshotBackend {
    fn grab_primary_monitor(&self) -> Result<GrabResult, CaptureError>;

    fn grab_monitor(&self, monitor_id: u32) -> Result<GrabResult, CaptureError>;

    fn grab_window(&self, window_id: u32) -> Result<GrabResult, CaptureError>;

    fn grab_region(&self, monitor_id: u32, x: u32, y: u32, w: u32, h: u32) -> Result<
        GrabResult,
        CaptureError,
    >;

    fn list_capturable_windows(&self) -> Result<Vec<WindowInfo>, CaptureError>;
}

/// The macOS backend, built on ScreenCaptureKit.
#[derive(Debug, Clone, Copy, PartialEq, Eq)]
pub struct ScreenCaptureKitBackend;

/// The backend of the other platforms, built on xcap.
#[derive(Debug, Clone, Copy, PartialEq, Eq)]
pub struct XcapBackend;

/// Which backend captures on a platform.
#[derive(Debug, Clone, Copy, PartialEq, Eq, Structural)]
pub enum BackendKind {
    ScreenCaptureKit,
    Xcap,
}

/// ScreenCaptureKit on macOS, xcap everywhere else.
pub fn platform_backend(platform: Platform) -> (r: BackendKind)
    ensures
        r == (if platform == Platform::MacOs {
            BackendKind::ScreenCaptureKit
        } else {
            BackendKind::Xcap
        }),
{
    match platform {
        Platform::MacOs => BackendKind::ScreenCaptureKit,
        _ => BackendKind::Xcap,
    }
}

} // verus!
