use snapper_keeper::blocklist::BlocklistEntry;
use snapper_keeper::source_app::{SourceApp, SourceAppKind};

fn mac(id: &str) -> SourceApp {
    SourceApp { identifier: id.into(), display_name: id.into(), kind: SourceAppKind::MacosBundleId }
}

fn win(id: &str) -> SourceApp {
    SourceApp { identifier: id.into(), display_name: id.into(), kind: SourceAppKind::WindowsExe }
}

fn entry(identifier: &str, display_name: &str, kind: SourceAppKind) -> BlocklistEntry {
    BlocklistEntry { identifier: identifier.into(), display_name: display_name.into(), kind }
}

#[test]
fn returns_false_when_setting_unset() {
    assert!(!snapper_keeper::blocklist::matches(&Vec::new(), &mac("com.x.y")));
}

#[test]
fn returns_false_when_setting_is_empty_array() {
    let entries: Vec<BlocklistEntry> = vec![];
    assert!(!snapper_keeper::blocklist::matches(&entries, &win("foo.exe")));
}

#[test]
fn returns_true_on_exact_match_macos() {
    let entries = vec![entry("com.1password.1password8", "1Password 8", SourceAppKind::MacosBundleId)];
    assert!(snapper_keeper::blocklist::matches(&entries, &mac("com.1password.1password8")));
    assert!(!snapper_keeper::blocklist::matches(&entries, &mac("com.bitwarden.desktop")));
}

#[test]
fn windows_match_is_case_insensitive() {
    let entries = vec![entry("1Password.exe", "1Password", SourceAppKind::WindowsExe)];
    assert!(snapper_keeper::blocklist::matches(&entries, &win("1password.exe")));
    assert!(snapper_keeper::blocklist::matches(&entries, &win("1PASSWORD.EXE")));
}

#[test]
fn macos_match_is_case_sensitive() {
    let entries = vec![entry("com.example.app", "App", SourceAppKind::MacosBundleId)];
    assert!(snapper_keeper::blocklist::matches(&entries, &mac("com.example.app")));
    assert!(!snapper_keeper::blocklist::matches(&entries, &mac("Com.Example.App")));
}

#[test]
fn cross_kind_entries_are_inert() {
    let entries = vec![entry("1Password.exe", "1Password", SourceAppKind::WindowsExe)];
    assert!(!snapper_keeper::blocklist::matches(&entries, &mac("1Password.exe")));
}

#[test]
fn any_entry_may_match() {
    let entries = vec![
        entry("com.a", "A", SourceAppKind::MacosBundleId),
        entry("b.exe", "B", SourceAppKind::WindowsExe),
    ];
    assert!(snapper_keeper::blocklist::matches(&entries, &win("B.EXE")));
    assert!(!snapper_keeper::blocklist::matches(&entries, &win("c.exe")));
}
