use snapper_keeper::capture_error::CaptureError;
use snapper_keeper::macos_sck::{
    current_bundle_id, display_label, excluded_applications, resolve_requested_display_position,
    sck_capturable_windows, select_display, should_exclude_own_content, ShareableWindow,
};

#[test]
fn own_bundle_id_match_is_excluded() {
    assert!(should_exclude_own_content(
        Some("com.snapper-keeper.app"),
        "Snapper Keeper",
        "com.snapper-keeper.app",
    ));
}

#[test]
fn app_name_fallback_is_case_insensitive() {
    assert!(should_exclude_own_content(None, "Snapper-Keeper Helper", "com.snapper-keeper.app"));
}

#[test]
fn unrelated_window_is_not_excluded() {
    assert!(!should_exclude_own_content(
        Some("com.apple.finder"),
        "Finder",
        "com.snapper-keeper.app",
    ));
}

#[test]
fn bundle_id_mismatch_with_unrelated_name_is_not_excluded() {
    assert!(!should_exclude_own_content(
        Some("com.example.other"),
        "Other App",
        "com.snapper-keeper.app",
    ));
}

#[test]
fn no_bundle_id_unrelated_name_is_not_excluded() {
    assert!(!should_exclude_own_content(None, "Safari", "com.snapper-keeper.app"));
}

#[test]
fn own_window_titles_are_removed_from_capturable_window_list() {
    let windows = vec![
        ("com.snapper-keeper.app", "snapper-keeper", 1u32),
        ("com.apple.finder", "Downloads", 2u32),
    ];
    let visible_ids: Vec<u32> = windows
        .into_iter()
        .filter(|(bundle_id, app_name, _)| {
            !should_exclude_own_content(Some(bundle_id), app_name, "com.snapper-keeper.app")
        })
        .map(|(_, _, id)| id)
        .collect();
    assert_eq!(visible_ids, vec![2]);
}

fn shareable(id: u32, owner: Option<(&str, &str)>, on_screen: bool, has_area: bool) -> ShareableWindow {
    ShareableWindow {
        id,
        owner: owner.map(|(b, n)| (b.to_string(), n.to_string())),
        title: format!("window {id}"),
        on_screen,
        has_area,
        width: 800,
        height: 600,
    }
}

#[test]
fn sck_window_list_keeps_only_foreign_on_screen_windows_with_area() {
    let windows = vec![
        shareable(1, Some(("com.snapper-keeper.app", "Snapper Keeper")), true, true),
        shareable(2, Some(("com.apple.finder", "Finder")), true, true),
        shareable(3, None, true, true),
        shareable(4, Some(("com.apple.Safari", "Safari")), false, true),
        shareable(5, Some(("com.apple.Notes", "Notes")), true, false),
        shareable(6, Some(("com.other", "snapper-keeper helper")), true, true),
    ];
    let listed = sck_capturable_windows(windows, current_bundle_id());
    assert_eq!(listed.len(), 1);
    assert_eq!(listed[0].id, 2);
    assert_eq!(listed[0].app_name, "Finder");
    assert_eq!(listed[0].title, "window 2");
}

#[test]
fn excluded_applications_lists_own_processes_in_order() {
    let apps = vec![
        ("com.apple.finder".to_string(), "Finder".to_string()),
        ("com.snapper-keeper.app".to_string(), "Snapper Keeper".to_string()),
        ("com.x".to_string(), "SNAPPER-KEEPER Helper".to_string()),
    ];
    assert_eq!(excluded_applications(&apps, "com.snapper-keeper.app"), vec![1, 2]);
}

#[test]
fn display_selection_prefers_index_then_id() {
    assert_eq!(resolve_requested_display_position(&[5, 9], 1), Some(1));
    assert_eq!(resolve_requested_display_position(&[5, 9], 9), Some(1));
    assert_eq!(resolve_requested_display_position(&[5, 9], 7), None);
    assert_eq!(select_display(&[5, 9], 0), Ok(0));
    assert_eq!(select_display(&[], 0), Err(CaptureError::NoMonitors));
    assert_eq!(select_display(&[5, 9], 7), Err(CaptureError::NoMonitors));
    assert_eq!(display_label(69733378), "display-69733378");
}
