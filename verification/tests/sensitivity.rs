use snapper_keeper::platform::Platform;
use snapper_keeper::sensitivity::{
    is_sensitive, windows_flags_sensitive, FakeProbe, OsProbe, SensitivityProbe,
    WindowsClipboardFlags,
};

const UNFLAGGED: WindowsClipboardFlags = WindowsClipboardFlags {
    exclude_from_monitoring: false,
    can_include_in_history: None,
    can_upload_to_cloud: None,
};

#[test]
fn fake_probe_returns_canned_value() {
    assert!(!FakeProbe { answer: false }.is_sensitive());
    assert!(FakeProbe { answer: true }.is_sensitive());
}

#[test]
fn os_probe_delegates_to_platform_module() {
    let probe = OsProbe { platform: Platform::Other, windows: UNFLAGGED, mac_concealed: false };
    let _ = probe.is_sensitive();
    assert!(!probe.is_sensitive());
}

#[test]
fn windows_can_include_in_history_zero_marks_sensitive() {
    let flags = WindowsClipboardFlags { can_include_in_history: Some(0), ..UNFLAGGED };
    assert!(windows_flags_sensitive(flags));
    let probe = OsProbe { platform: Platform::Windows, windows: flags, mac_concealed: false };
    assert!(probe.is_sensitive());
}

#[test]
fn linux_test_skipped() {
    println!("SKIP: sensitivity integration runs on macOS + Windows only");
}

#[test]
fn windows_flags_each_mark_sensitive() {
    assert!(!windows_flags_sensitive(UNFLAGGED));
    assert!(windows_flags_sensitive(WindowsClipboardFlags {
        exclude_from_monitoring: true,
        ..UNFLAGGED
    }));
    assert!(windows_flags_sensitive(WindowsClipboardFlags {
        can_upload_to_cloud: Some(0),
        ..UNFLAGGED
    }));
    assert!(!windows_flags_sensitive(WindowsClipboardFlags {
        can_include_in_history: Some(1),
        can_upload_to_cloud: Some(1),
        ..UNFLAGGED
    }));
}

#[test]
fn platform_sensitivity_uses_its_own_signal() {
    let flagged = WindowsClipboardFlags { exclude_from_monitoring: true, ..UNFLAGGED };
    assert!(is_sensitive(Platform::MacOs, UNFLAGGED, true));
    assert!(!is_sensitive(Platform::MacOs, flagged, false));
    assert!(is_sensitive(Platform::Windows, flagged, false));
    assert!(!is_sensitive(Platform::Other, flagged, true));
}
