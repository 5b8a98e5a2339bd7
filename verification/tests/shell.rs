use snapper_keeper::backend::{platform_backend, BackendKind};
use snapper_keeper::foreground::ForegroundInfo;
use snapper_keeper::hotkeys::{all_actions, HotkeyAction};
use snapper_keeper::orchestrate::new_capture;
use snapper_keeper::platform::Platform;
use snapper_keeper::shell::{
    crash_dump_contents, crash_dump_file_name, diagnostics_markdown, panic_message, safe_setup,
    tray_hotkey_label, tray_icon_for, TrayIcon,
};

#[test]
fn tray_labels_name_the_platform_modifier() {
    assert_eq!(tray_hotkey_label("Capture Region", "4", Platform::MacOs), "Capture Region\tCmd+Shift+4");
    assert_eq!(tray_hotkey_label("Clipboard", "V", Platform::Windows), "Clipboard\tCtrl+Shift+V");
}

#[test]
fn diagnostics_name_the_plugin_twice() {
    let md = diagnostics_markdown("snk-ocr", "boom");
    assert_eq!(
        md,
        "## Plugin setup panic\n- Plugin: `snk-ocr`\n- Panic: `boom`\n\n## Action\n- Plugin `snk-ocr` failed to start during app bootstrap.\n- Please file a bug and include this diagnostics blob."
    );
}

#[test]
fn panic_messages_fall_back_for_non_string_payloads() {
    assert_eq!(panic_message(Some("index out of bounds")), "index out of bounds");
    assert_eq!(panic_message(None), "unknown panic payload");
    assert_eq!(safe_setup(7u8).inner, 7);
}

#[test]
fn crash_dump_layout() {
    assert_eq!(crash_dump_file_name("2024-01-02T03-04-05.678Z"), "crash-2024-01-02T03-04-05.678Z.log");
    assert_eq!(
        crash_dump_contents("T", "1.2.3", "linux", "x86_64", "oops", "bt"),
        "# snapper-keeper crash dump\nTimestamp (UTC): T\nApp version: 1.2.3\nOS: linux x86_64\n\n## Panic\noops\n\n## Backtrace\nbt\n"
    );
}

#[test]
fn tray_icons_per_theme_family() {
    assert_eq!(tray_icon_for("memphis"), TrayIcon::Memphis);
    assert_eq!(tray_icon_for("wabi-sabi"), TrayIcon::WabiSabi);
    assert_eq!(tray_icon_for("atomic"), TrayIcon::Atomic);
    assert_eq!(tray_icon_for("holo"), TrayIcon::Holo);
    assert_eq!(tray_icon_for("Memphis"), TrayIcon::Holo);
    assert_eq!(tray_icon_for(""), TrayIcon::Holo);
}

#[test]
fn hotkey_events_and_default_chords() {
    assert_eq!(HotkeyAction::CaptureTimedFullScreen.event_name(), "hotkey:capture-timed");
    assert_eq!(HotkeyAction::ClipboardHistory.default_chord(Platform::MacOs), "Cmd+Shift+V");
    assert_eq!(HotkeyAction::CaptureRegion.default_chord(Platform::Windows), "CmdOrCtrl+Shift+4");
    let names: Vec<&str> = all_actions().into_iter().map(|a| a.event_name()).collect();
    assert_eq!(
        names,
        vec![
            "hotkey:capture-full-screen",
            "hotkey:capture-region",
            "hotkey:capture-window",
            "hotkey:capture-timed",
            "hotkey:clipboard-history",
        ]
    );
}

#[test]
fn backend_per_platform() {
    assert_eq!(platform_backend(Platform::MacOs), BackendKind::ScreenCaptureKit);
    assert_eq!(platform_backend(Platform::Windows), BackendKind::Xcap);
    assert_eq!(platform_backend(Platform::Other), BackendKind::Xcap);
}

#[test]
fn new_capture_without_foreground_has_no_source() {
    let row = new_capture("captures/x.png".into(), 2, 1, None, None);
    assert!(row.source_app.is_none());
    assert!(row.source_window_title.is_none());
    assert!(row.monitor.is_none());
}

#[test]
fn new_capture_carries_foreground_and_monitor() {
    let row = new_capture(
        "captures/x.png".into(),
        2,
        1,
        Some("Mon0".into()),
        Some(ForegroundInfo { app_name: "Firefox".into(), window_title: "github".into() }),
    );
    assert_eq!(row.width, 2);
    assert_eq!(row.height, 1);
    assert_eq!(row.source_app.as_deref(), Some("Firefox"));
    assert_eq!(row.source_window_title.as_deref(), Some("github"));
    assert_eq!(row.monitor.as_deref(), Some("Mon0"));
    assert_eq!(row.file_path, "captures/x.png");
}
