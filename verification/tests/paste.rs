use snapper_keeper::clipboard_error::ClipboardError;
use snapper_keeper::digest::hash_content;
use snapper_keeper::grab::encode_rgba_to_png;
use snapper_keeper::paste::{
    check_sent_inputs, paste_keystrokes, plan_paste, prepare_image_paste, synthesize_paste,
    KeyStroke, PasteChord, PasteContent, MAC_KEY_V, VK_CONTROL, VK_V,
};
use snapper_keeper::platform::Platform;
use snapper_keeper::watcher::ClipboardItemKind;

fn failed(r: Result<PasteContent, ClipboardError>) -> String {
    match r {
        Err(ClipboardError::PasteFailed { reason }) => reason,
        other => panic!("expected PasteFailed, got {other:?}"),
    }
}

#[test]
fn paste_chord_per_platform() {
    assert_eq!(synthesize_paste(Platform::Windows, false), Ok(PasteChord::ControlV));
    assert_eq!(synthesize_paste(Platform::MacOs, true), Ok(PasteChord::CommandV));
    assert_eq!(synthesize_paste(Platform::MacOs, false), Err(ClipboardError::AccessibilityRequired));
    assert_eq!(
        synthesize_paste(Platform::Other, true),
        Err(ClipboardError::PasteFailed { reason: "unsupported platform".into() })
    );
}

#[test]
fn paste_keystrokes_press_and_release_in_order() {
    let key = |key_code, key_up, command| KeyStroke { key_code, key_up, command };
    assert_eq!(
        paste_keystrokes(PasteChord::ControlV),
        vec![
            key(VK_CONTROL, false, false),
            key(VK_V, false, false),
            key(VK_V, true, false),
            key(VK_CONTROL, true, false),
        ]
    );
    assert_eq!(
        paste_keystrokes(PasteChord::CommandV),
        vec![key(MAC_KEY_V, false, true), key(MAC_KEY_V, true, true)]
    );
    assert_eq!((VK_CONTROL, VK_V, MAC_KEY_V), (0x11, 0x56, 9));
}

#[test]
fn send_input_must_insert_all_four_events() {
    assert!(check_sent_inputs(4).is_ok());
    assert_eq!(
        check_sent_inputs(2),
        Err(ClipboardError::PasteFailed { reason: "SendInput returned 2, expected 4".into() })
    );
}

#[test]
fn plan_paste_text_and_image_items() {
    assert_eq!(
        plan_paste(ClipboardItemKind::Text, Some("hi".into()), None, Some(Some(false))),
        Ok(PasteContent::Text("hi".into()))
    );
    assert_eq!(
        failed(plan_paste(ClipboardItemKind::Text, None, None, None)),
        "text item has no text_content"
    );
    assert_eq!(
        plan_paste(ClipboardItemKind::Image, None, Some("captures/a.png".into()), None),
        Ok(PasteContent::ImageFile("captures/a.png".into()))
    );
    assert_eq!(
        plan_paste(ClipboardItemKind::Image, None, Some("captures/a.png".into()), Some(None)),
        Ok(PasteContent::ImageFile("captures/a.png".into()))
    );
    assert_eq!(
        failed(plan_paste(ClipboardItemKind::Image, None, Some("a.png".into()), Some(Some(false)))),
        "image paste is disabled (clipboard.image_paste_enabled = false)"
    );
    assert_eq!(
        failed(plan_paste(ClipboardItemKind::Image, None, None, Some(Some(true)))),
        "image item has no file_path"
    );
}

#[test]
fn prepare_image_paste_decodes_and_hashes_pixels() {
    let rgba = vec![10u8, 20, 30, 255, 40, 50, 60, 255];
    let png = encode_rgba_to_png(&rgba, 2, 1).unwrap();
    let prepared = prepare_image_paste(&png).unwrap();
    assert_eq!((prepared.width, prepared.height), (2, 1));
    assert_eq!(prepared.rgba, rgba);
    assert_eq!(prepared.hash, hash_content(&rgba));
    assert_ne!(prepared.hash, hash_content(&png));
    match prepare_image_paste(b"not a png") {
        Err(ClipboardError::PasteFailed { reason }) => assert!(reason.starts_with("decode image: ")),
        other => panic!("expected decode failure, got {:?}", other.map(|p| p.width)),
    }
}
