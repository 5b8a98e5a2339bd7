use snapper_keeper::capture_error::CaptureError;
use snapper_keeper::grab::{
    capturable_windows, clamp_region, encode_rgba_to_png, find_window, grab_from_pixels,
    grab_region_from_pixels, resolve_requested_monitor_position, select_monitor, MonitorSummary,
    WindowSnapshot,
};
use snapper_keeper::xcap_adapter;

#[test]
fn clamp_region_returns_none_for_zero_dimensions() {
    assert_eq!(clamp_region(100, 100, 0, 0, 0, 50), None);
    assert_eq!(clamp_region(100, 100, 0, 0, 50, 0), None);
    assert_eq!(clamp_region(0, 0, 0, 0, 10, 10), None);
}

#[test]
fn clamp_region_caps_x_y_to_image_bounds() {
    let r = clamp_region(100, 100, 200, 50, 50, 50).unwrap();
    assert_eq!(r, (99, 50, 1, 50));
}

#[test]
fn clamp_region_caps_w_h_to_remaining_image() {
    let r = clamp_region(100, 100, 80, 80, 50, 50).unwrap();
    assert_eq!(r, (80, 80, 20, 20));
}

#[test]
fn clamp_region_passes_through_valid_region() {
    let r = clamp_region(800, 600, 100, 50, 200, 150).unwrap();
    assert_eq!(r, (100, 50, 200, 150));
}

#[test]
fn encode_rgba_to_png_produces_valid_png_signature() {
    let rgba = vec![255u8, 0, 0, 255, 0, 255, 0, 255];
    let png = encode_rgba_to_png(&rgba, 2, 1).unwrap();
    assert_eq!(&png[0..8], b"\x89PNG\r\n\x1a\n");
    let decoded = image::load_from_memory(&png).unwrap();
    assert_eq!(decoded.width(), 2);
    assert_eq!(decoded.height(), 1);
}

#[test]
fn encode_rgba_to_png_round_trips_a_small_image() {
    let mut rgba = Vec::with_capacity(4 * 4 * 4);
    for _ in 0..16 {
        rgba.extend_from_slice(&[0, 0, 255, 255]);
    }
    let png = encode_rgba_to_png(&rgba, 4, 4).unwrap();
    let img = image::load_from_memory(&png).unwrap().to_rgba8();
    assert_eq!(img.dimensions(), (4, 4));
    for px in img.pixels() {
        assert_eq!(px.0, [0, 0, 255, 255]);
    }
}

#[test]
fn resolve_requested_monitor_position_uses_native_id_even_when_it_is_an_index() {
    let ids = vec![1, 2];
    assert_eq!(resolve_requested_monitor_position(&ids, 1), Some(0));
}

#[test]
fn resolve_requested_monitor_position_survives_reordering_and_rejects_unknown() {
    let ids = vec![42, 77];
    assert_eq!(resolve_requested_monitor_position(&ids, 77), Some(1));
    assert_eq!(resolve_requested_monitor_position(&[77, 42], 42), Some(1));
    assert_eq!(resolve_requested_monitor_position(&[77, 42], 0), None);
}

#[test]
fn resolve_requested_monitor_position_prefers_index_over_id_match() {
    let ids = vec![1, 2];
    assert_eq!(xcap_adapter::resolve_requested_monitor_position(&ids, 1), Some(1));
}

#[test]
fn resolve_requested_monitor_position_falls_back_to_id_when_index_is_out_of_range() {
    let ids = vec![42, 77];
    assert_eq!(xcap_adapter::resolve_requested_monitor_position(&ids, 77), Some(1));
}

fn monitor(id: u32, is_primary: bool) -> MonitorSummary {
    MonitorSummary { id, is_primary }
}

#[test]
fn select_monitor_by_id_primary_or_last() {
    let monitors = vec![monitor(10, false), monitor(20, true), monitor(30, false)];
    assert_eq!(select_monitor(&monitors, Some(30)), Ok(2));
    assert_eq!(select_monitor(&monitors, Some(99)), Err(CaptureError::MonitorNotFound { id: 99 }));
    assert_eq!(select_monitor(&monitors, None), Ok(1));
    let no_primary = vec![monitor(10, false), monitor(30, false)];
    assert_eq!(select_monitor(&no_primary, None), Ok(1));
    assert_eq!(select_monitor(&vec![], None), Err(CaptureError::NoMonitors));
}

#[test]
fn xcap_select_monitor_falls_back_to_primary_when_request_unresolved() {
    let ids = vec![10, 20, 30];
    let primary = vec![false, true, false];
    assert_eq!(xcap_adapter::select_monitor(&ids, &primary, Some(2)), Ok(2));
    assert_eq!(xcap_adapter::select_monitor(&ids, &primary, Some(99)), Ok(1));
    assert_eq!(xcap_adapter::select_monitor(&ids, &primary, None), Ok(1));
    assert_eq!(xcap_adapter::select_monitor(&vec![], &vec![], None), Err(CaptureError::NoMonitors));
}

fn snapshot(id: u32, minimized: bool, width: u32, height: u32) -> WindowSnapshot {
    WindowSnapshot {
        id,
        app_name: format!("app {id}"),
        title: format!("title {id}"),
        width,
        height,
        minimized,
    }
}

#[test]
fn capturable_windows_drop_minimized_and_empty_windows() {
    let windows = vec![
        snapshot(1, false, 800, 600),
        snapshot(2, true, 800, 600),
        snapshot(3, false, 0, 600),
        snapshot(4, false, 640, 0),
        snapshot(5, false, 1, 1),
    ];
    let infos = capturable_windows(windows);
    let ids: Vec<u32> = infos.iter().map(|w| w.id).collect();
    assert_eq!(ids, vec![1, 5]);
    assert_eq!(infos[0].app_name, "app 1");
    assert_eq!(infos[0].title, "title 1");
}

#[test]
fn find_window_reports_missing_id() {
    let windows = vec![snapshot(7, false, 1, 1), snapshot(8, false, 1, 1)];
    assert_eq!(find_window(&windows, 8), Ok(1));
    assert_eq!(find_window(&windows, 9), Err(CaptureError::WindowNotFound { id: 9 }));
}

#[test]
fn grab_from_pixels_encodes_whole_image() {
    let rgba = vec![1u8, 2, 3, 255, 4, 5, 6, 255];
    let g = grab_from_pixels(&rgba, 2, 1, "Mon0".to_string()).unwrap();
    assert_eq!((g.width, g.height), (2, 1));
    assert_eq!(g.monitor_name, "Mon0");
    let back = image::load_from_memory(&g.png_bytes).unwrap().to_rgba8().into_raw();
    assert_eq!(back, rgba);
}

#[test]
fn grab_region_from_pixels_crops_the_clamped_region() {
    // 3x2 image, pixel value = index.
    let mut rgba = Vec::new();
    for i in 0..6u8 {
        rgba.extend_from_slice(&[i, i, i, 255]);
    }
    let g = grab_region_from_pixels(&rgba, 3, 2, 1, 0, 5, 5, "Mon".to_string()).unwrap();
    assert_eq!((g.width, g.height), (2, 2));
    let back = image::load_from_memory(&g.png_bytes).unwrap().to_rgba8().into_raw();
    assert_eq!(back, vec![1, 1, 1, 255, 2, 2, 2, 255, 4, 4, 4, 255, 5, 5, 5, 255]);
    match grab_region_from_pixels(&rgba, 3, 2, 0, 0, 0, 1, "Mon".to_string()) {
        Err(CaptureError::Os { message }) => assert_eq!(message, "region has zero area"),
        _ => panic!("expected a zero-area error"),
    }
}
