use snapper_keeper::clipboard_error::ClipboardError;
use snapper_keeper::paste::{
    focus_step, is_focus_target, restore_outcome, FocusStep, restore_paste_target_with, wait_for_focus_restore_with,
    FOCUS_RESTORE_ATTEMPTS, FOCUS_RESTORE_POLL_MS,
};
use snapper_keeper::platform::Platform;
use snapper_keeper::source_app::{SourceApp, SourceAppKind};

fn text_edit() -> SourceApp {
    SourceApp {
        identifier: "com.apple.TextEdit".into(),
        display_name: "TextEdit".into(),
        kind: SourceAppKind::MacosBundleId,
    }
}

fn snapper() -> SourceApp {
    SourceApp {
        identifier: "com.snapper-keeper.app".into(),
        display_name: "Snapper Keeper".into(),
        kind: SourceAppKind::MacosBundleId,
    }
}

#[test]
fn wait_for_focus_restore_stops_when_target_app_returns() {
    let target = text_edit();
    let mut calls = 0usize;
    let mut sleeps = 0usize;
    let restored = wait_for_focus_restore_with(
        &target,
        || {
            calls += 1;
            if calls < 3 {
                Some(snapper())
            } else {
                Some(target.clone())
            }
        },
        |_| sleeps += 1,
    );
    assert!(restored);
    assert_eq!(calls, 3);
    assert_eq!(sleeps, 2);
}

#[test]
fn wait_for_focus_restore_times_out_when_target_never_returns() {
    let target = text_edit();
    let mut sleeps = 0usize;
    let restored = wait_for_focus_restore_with(&target, || Some(snapper()), |_| sleeps += 1);
    assert!(!restored);
    assert_eq!(sleeps, FOCUS_RESTORE_ATTEMPTS);
}

#[test]
fn focus_polls_sleep_the_poll_interval() {
    let target = text_edit();
    let mut waits = Vec::new();
    wait_for_focus_restore_with(&target, || None, |ms| waits.push(ms));
    assert_eq!(waits.len(), 25);
    assert!(waits.iter().all(|ms| *ms == FOCUS_RESTORE_POLL_MS));
}

#[test]
fn focus_target_needs_same_kind_and_matching_identifier() {
    let exe = SourceApp {
        identifier: "Code.exe".into(),
        display_name: "Code".into(),
        kind: SourceAppKind::WindowsExe,
    };
    let lower = SourceApp { identifier: "code.exe".into(), ..exe.clone() };
    assert!(is_focus_target(&exe, &Some(lower)));
    let mac_named_alike = SourceApp {
        identifier: "Code.exe".into(),
        display_name: "Code".into(),
        kind: SourceAppKind::MacosBundleId,
    };
    assert!(!is_focus_target(&exe, &Some(mac_named_alike)));
    assert!(!is_focus_target(&exe, &None));
    let upper_bundle = SourceApp { identifier: "COM.APPLE.TEXTEDIT".into(), ..text_edit() };
    assert!(!is_focus_target(&text_edit(), &Some(upper_bundle)));
}

fn reason(r: Result<(), ClipboardError>) -> String {
    match r {
        Err(ClipboardError::PasteFailed { reason }) => reason,
        other => panic!("expected PasteFailed, got {other:?}"),
    }
}

#[test]
fn restore_paste_target_reports_each_failure() {
    let target = text_edit();
    assert_eq!(
        reason(restore_paste_target_with(
            Platform::MacOs,
            &target,
            |_| Err("no main thread".to_string()),
            || None,
            |_| {}
        )),
        "schedule focus restore: no main thread"
    );
    assert_eq!(
        reason(restore_paste_target_with(Platform::MacOs, &target, |_| Ok(false), || None, |_| {})),
        "failed to reactivate TextEdit"
    );
    assert_eq!(
        reason(restore_paste_target_with(
            Platform::MacOs,
            &target,
            |_| Ok(true),
            || Some(snapper()),
            |_| {}
        )),
        "timed out restoring focus to TextEdit"
    );
    let mut asked = String::new();
    assert!(restore_paste_target_with(
        Platform::MacOs,
        &target,
        |id| {
            asked = id.to_string();
            Ok(true)
        },
        || Some(text_edit()),
        |_| {}
    )
    .is_ok());
    assert_eq!(asked, "com.apple.TextEdit");
}

#[test]
fn restore_paste_target_is_a_no_op_off_macos() {
    let target = text_edit();
    assert!(restore_paste_target_with(
        Platform::Windows,
        &target,
        |_| panic!("no activation off macOS"),
        || None,
        |_| {}
    )
    .is_ok());
    let exe = SourceApp {
        identifier: "code.exe".into(),
        display_name: "Code".into(),
        kind: SourceAppKind::WindowsExe,
    };
    assert!(restore_paste_target_with(
        Platform::MacOs,
        &exe,
        |_| panic!("no activation for a Windows target"),
        || None,
        |_| {}
    )
    .is_ok());
}

#[test]
fn restore_outcome_names_each_failure() {
    let failed = |r: Result<(), ClipboardError>| match r {
        Err(ClipboardError::PasteFailed { reason }) => reason,
        other => panic!("expected PasteFailed, got {other:?}"),
    };
    assert!(restore_outcome(Ok(true), true, "TextEdit").is_ok());
    assert_eq!(failed(restore_outcome(Ok(true), false, "TextEdit")), "timed out restoring focus to TextEdit");
    assert_eq!(failed(restore_outcome(Ok(false), true, "TextEdit")), "failed to reactivate TextEdit");
    assert_eq!(failed(restore_outcome(Err("busy".into()), true, "TextEdit")), "schedule focus restore: busy");
}

#[test]
fn focus_wait_checks_at_most_twenty_five_times() {
    assert_eq!(focus_step(0, true), FocusStep::Found);
    assert_eq!(focus_step(0, false), FocusStep::SleepThenCheck { next: 1 });
    assert_eq!(focus_step(23, false), FocusStep::SleepThenCheck { next: 24 });
    assert_eq!(focus_step(24, false), FocusStep::SleepThenGiveUp);
    assert_eq!(focus_step(24, true), FocusStep::Found);
}
