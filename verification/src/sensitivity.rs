//! Sensitive-clipboard detection seam: the watcher asks a probe whether the
//! current clipboard content is flagged as sensitive by its writer.
use vstd::prelude::*;

use crate::platform::Platform;

verus! {

/// Answers "is the current OS clipboard flagged as sensitive".
pub trait SensitivityProbe {
    /// The answer this probe gives.
    spec fn answer_of(&self) -> bool;

    fn is_sensitive(&self) -> (r: bool)
        ensures
            r == self.answer_of(),
    ;
}

/// A probe that returns a fixed answer.
#[derive(Debug, Clone, Copy)]
pub struct FakeProbe {
    pub answer: bool,
}

impl SensitivityProbe for FakeProbe {
    open spec fn answer_of(&self) -> bool {
        self.answer
    }

    fn is_sensitive(&self) -> (r: bool)
        ensures
            r == self.answer,
    {
        self.answer
    }
}

/// The clipboard formats Windows uses to keep content out of history: the
/// presence-only exclusion format, and the two DWORD formats
/// `CanIncludeInClipboardHistory` and `CanUploadToCloudClipboard` when
/// present.
#[derive(Debug, Clone, Copy, PartialEq, Eq)]
pub struct WindowsClipboardFlags {
    pub exclude_from_monitoring: bool,
    pub can_include_in_history: Option<u32>,
    pub can_upload_to_cloud: Option<u32>,
}

/// Content is sensitive when it is excluded from monitoring, or either
/// DWORD format is present with value 0.
pub open spec fn spec_windows_sensitive(f: WindowsClipboardFlags) -> bool {
    f.exclude_from_monitoring || f.can_include_in_history == Some(0u32) || f.can_upload_to_cloud
        == Some(0u32)
}

/// Whether Windows clipboard content is flagged as sensitive.
pub fn windows_flags_sensitive(flags: WindowsClipboardFlags) -> (r: bool)
    ensures
        r == spec_windows_sensitive(flags),
{
    if flags.exclude_from_monitoring {
        return true;
    }
    if let Some(0) = flags.can_include_in_history {
        return true;
    }
    if let Some(0) = flags.can_upload_to_cloud {
        return true;
    }
    false
}

/// Whether the OS clipboard is flagged as sensitive, from what the
/// platform reports: the Windows formats on Windows, whether the pasteboard
/// declares the concealed type (`org.nspasteboard.ConcealedType`) on macOS,
/// and never elsewhere.
pub open spec fn spec_is_sensitive(platform: Platform, windows: WindowsClipboardFlags, mac_concealed: bool) -> bool {
    match platform {
        Platform::Windows => spec_windows_sensitive(windows),
        Platform::MacOs => mac_concealed,
        Platform::Other => false,
    }
}

/// Whether the OS clipboard is flagged as sensitive.
pub fn is_sensitive(platform: Platform, windows: WindowsClipboardFlags, mac_concealed: bool) -> (r: bool)
    ensures
        r == spec_is_sensitive(platform, windows, mac_concealed),
{
    match platform {
        Platform::Windows => windows_flags_sensitive(windows),
        Platform::MacOs => mac_concealed,
        Platform::Other => false,
    }
}

/// The production probe: what the platform reported about the clipboard
/// content under observation.
#[derive(Debug, Clone, Copy, PartialEq, Eq)]
pub struct OsProbe {
    pub platform: Platform,
    pub windows: WindowsClipboardFlags,
    pub mac_concealed: bool,
}

impl SensitivityProbe for OsProbe {
    open spec fn answer_of(&self) -> bool {
        spec_is_sensitive(self.platform, self.windows, self.mac_concealed)
    }

    fn is_sensitive(&self) -> (r: bool)
        ensures
            r == spec_is_sensitive(self.platform, self.windows, self.mac_concealed),
    {
        is_sensitive(self.platform, self.windows, self.mac_concealed)
    }
}

} // verus!
