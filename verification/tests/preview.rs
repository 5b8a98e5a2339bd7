use snapper_keeper::capture_error::CaptureError;
use snapper_keeper::display::{coordinate_space, describe};
use snapper_keeper::foreground::{foreground_from, ForegroundInfo};
use snapper_keeper::grab::{encode_rgba_to_png, GrabResult, WindowSnapshot};
use snapper_keeper::platform::Platform;
use snapper_keeper::preview::PreviewSession;

fn pixels() -> GrabResult {
    GrabResult {
        png_bytes: encode_rgba_to_png(&[255, 0, 0, 255, 0, 255, 0, 255], 2, 1).unwrap(),
        width: 2,
        height: 1,
        monitor_name: "unplugged display".into(),
    }
}

#[test]
fn crops_owned_snapshot_without_a_monitor_and_consumes_token() {
    let mut session = PreviewSession::default();
    let mut source = pixels();
    session.replace(
        "A".into(),
        source.clone(),
        Some(ForegroundInfo { app_name: "Original".into(), window_title: "Before overlay".into() }),
    );
    source.png_bytes = encode_rgba_to_png(&[0, 0, 255, 255, 0, 0, 255, 255], 2, 1).unwrap();
    assert_ne!(source.png_bytes, pixels().png_bytes);
    let (crop, fg) = session.crop("A", 1, 0, 1, 1).unwrap();
    assert_eq!(
        image::load_from_memory(&crop.png_bytes).unwrap().to_rgba8().get_pixel(0, 0).0,
        [0, 255, 0, 255]
    );
    assert_eq!(crop.monitor_name, "unplugged display");
    assert_eq!(fg.unwrap().app_name, "Original");
    assert!(matches!(session.crop("A", 0, 0, 1, 1), Err(CaptureError::StalePreview)));
}

#[test]
fn newer_preview_supersedes_old_without_consuming_current_on_stale_request() {
    let mut session = PreviewSession::default();
    session.replace("A".into(), pixels(), None);
    session.replace("B".into(), pixels(), None);
    assert!(matches!(session.crop("A", 0, 0, 1, 1), Err(CaptureError::StalePreview)));
    assert!(session.crop("B", 0, 0, 1, 1).is_ok());
}

#[test]
fn empty_region_keeps_the_snapshot() {
    let mut session = PreviewSession::new();
    session.replace("A".into(), pixels(), None);
    match session.crop("A", 5, 0, 0, 1) {
        Err(CaptureError::Os { message }) => assert_eq!(message, "region has zero area"),
        other => panic!("expected zero-area error, got {:?}", other.map(|(g, _)| g.width)),
    }
    let (crop, _) = session.crop("A", 0, 0, 9, 9).unwrap();
    assert_eq!((crop.width, crop.height), (2, 1));
}

#[test]
fn undecodable_snapshot_is_an_encode_error() {
    let mut session = PreviewSession::new();
    let mut broken = pixels();
    broken.png_bytes = vec![1, 2, 3];
    session.replace("A".into(), broken, None);
    assert!(matches!(session.crop("A", 0, 0, 1, 1), Err(CaptureError::Encode { .. })));
    assert!(matches!(session.crop("A", 0, 0, 1, 1), Err(CaptureError::Encode { .. })));
}

#[test]
fn display_geometry_units_follow_the_platform() {
    assert_eq!(coordinate_space(Platform::MacOs), "logical");
    assert_eq!(coordinate_space(Platform::Windows), "physical");
    let d = describe(Platform::MacOs, 77, -1440, 100, 1440, 900);
    assert_eq!(d.id, 77);
    assert_eq!(d.frame.coordinate_space, "logical");
    assert_eq!((d.frame.x, d.frame.y, d.frame.width, d.frame.height), (-1440, 100, 1440, 900));
}

#[test]
fn foreground_is_the_first_capturable_window() {
    let windows = vec![
        WindowSnapshot { id: 1, app_name: "Hidden".into(), title: "x".into(), width: 10, height: 10, minimized: true },
        WindowSnapshot { id: 2, app_name: "Firefox".into(), title: "github".into(), width: 10, height: 10, minimized: false },
    ];
    let fg = foreground_from(&windows).unwrap();
    assert_eq!(fg.app_name, "Firefox");
    assert_eq!(fg.window_title, "github");
    assert!(foreground_from(&vec![]).is_none());
}
