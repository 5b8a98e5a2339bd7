//! The library row a capture is stored under.
use vstd::prelude::*;

use crate::foreground::ForegroundInfo;

verus! {

/// A capture row to insert into the library.
#[derive(Debug, Clone, PartialEq, Eq)]
pub struct NewCapture {
    /// Library-relative path of the stored PNG.
    pub file_path: String,
    pub width: u32,
    pub height: u32,
    /// The application in front when the capture was taken.
    pub source_app: Option<String>,
    /// The title of that application's window.
    pub source_window_title: Option<String>,
    /// The name of the captured monitor.
    pub monitor: Option<String>,
}

/// The row describing a capture written to `file_path`: its size, the
/// monitor, and the foreground application and window title when known.
pub fn new_capture(
    file_path: String,
    width: u32,
    height: u32,
    monitor: Option<String>,
    foreground: Option<ForegroundInfo>,
) -> (r: NewCapture)
    ensures
        r.file_path == file_path,
        r.width == width,
        r.height == height,
        r.monitor == monitor,
        r.source_app == match foreground {
            Some(f) => Some(f.app_name),
            None => None::<String>,
        },
        r.source_window_title == match foreground {
            Some(f) => Some(f.window_title),
            None => None::<String>,
        },
{
    let (source_app, source_window_title) = match foreground {
        Some(f) => (Some(f.app_name), Some(f.window_title)),
        None => (None, None),
    };
    NewCapture { file_path, width, height, source_app, source_window_title, monitor }
}

} // verus!
