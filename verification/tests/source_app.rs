use snapper_keeper::source_app::{windows_source_app, SourceApp, SourceAppKind};

#[test]
fn windows_identifier_match_is_case_insensitive() {
    let app = SourceApp {
        identifier: "1Password.exe".into(),
        display_name: "1Password".into(),
        kind: SourceAppKind::WindowsExe,
    };
    assert!(app.identifier_matches("1password.exe"));
    assert!(app.identifier_matches("1PASSWORD.EXE"));
    assert!(!app.identifier_matches("KeePass.exe"));
}

#[test]
fn macos_identifier_match_is_case_sensitive() {
    let app = SourceApp {
        identifier: "com.1password.1password8".into(),
        display_name: "1Password 8".into(),
        kind: SourceAppKind::MacosBundleId,
    };
    assert!(app.identifier_matches("com.1password.1password8"));
    assert!(!app.identifier_matches("COM.1password.1password8"));
    assert!(!app.identifier_matches("com.bitwarden.desktop"));
}

#[test]
fn windows_source_app_lowercases_and_prefers_description() {
    let app = windows_source_app("Code.EXE", Some("Visual Studio Code".to_string()));
    assert_eq!(app.identifier, "code.exe");
    assert_eq!(app.display_name, "Visual Studio Code");
    assert_eq!(app.kind, SourceAppKind::WindowsExe);
    let bare = windows_source_app("Notepad.exe", None);
    assert_eq!(bare.identifier, "notepad.exe");
    assert_eq!(bare.display_name, "Notepad.exe");
}

#[test]
fn duplicate_keeps_every_field() {
    let app = SourceApp {
        identifier: "com.x".into(),
        display_name: "X".into(),
        kind: SourceAppKind::MacosBundleId,
    };
    assert_eq!(app.duplicate(), app);
}
