use snapper_keeper::annotate::{
    check_state_json_size, check_state_version, validate_png_payload, AnnotateError,
    MAX_PNG_BYTES, MAX_STATE_JSON_BYTES,
};
use snapper_keeper::capture_error::CaptureError;
use snapper_keeper::clipboard_error::ClipboardError;

const PNG_SIGNATURE: [u8; 8] = [0x89, 0x50, 0x4E, 0x47, 0x0D, 0x0A, 0x1A, 0x0A];

fn valid_png() -> Vec<u8> {
    let mut bytes = PNG_SIGNATURE.to_vec();
    bytes.extend_from_slice(&[0; 16]);
    bytes
}

fn reason_of(err: AnnotateError) -> String {
    match err {
        AnnotateError::InvalidInput { reason } => reason,
        other => panic!("expected InvalidInput, got {other:?}"),
    }
}

#[test]
fn png_signature_accepts_valid_signature() {
    let bytes = valid_png();
    assert_eq!(validate_png_payload(&bytes).unwrap(), bytes.len());
}

#[test]
fn png_signature_rejects_wrong_magic() {
    let bytes = b"GIF89a; not a png".to_vec();
    let reason = reason_of(validate_png_payload(&bytes).unwrap_err());
    assert!(reason.contains("PNG signature"));
}

#[test]
fn png_signature_rejects_too_short_buffer() {
    let bytes = vec![0x89, 0x50, 0x4E];
    let reason = reason_of(validate_png_payload(&bytes).unwrap_err());
    assert!(reason.contains("too short"));
}

#[test]
fn png_payload_rejects_oversized() {
    let bytes = vec![0u8; MAX_PNG_BYTES + 1];
    let reason = reason_of(validate_png_payload(&bytes).unwrap_err());
    assert!(reason.contains("too large"));
    assert!(reason.contains("16 MiB"));
}

#[test]
fn png_payload_accepts_exact_max_size() {
    let mut bytes = vec![0u8; MAX_PNG_BYTES];
    bytes[..PNG_SIGNATURE.len()].copy_from_slice(&PNG_SIGNATURE);
    assert_eq!(validate_png_payload(&bytes).unwrap(), MAX_PNG_BYTES);
}

#[test]
fn png_rejection_reasons_are_exact() {
    assert_eq!(
        reason_of(validate_png_payload(&[1, 2, 3]).unwrap_err()),
        "payload too short to be a PNG: 3 bytes (need >= 8 for signature)"
    );
    assert_eq!(
        reason_of(validate_png_payload(&vec![0u8; MAX_PNG_BYTES + 1]).unwrap_err()),
        "PNG payload too large: 16777217 bytes (max 16777216 bytes / 16 MiB)"
    );
    assert_eq!(
        reason_of(validate_png_payload(&[0u8; 8]).unwrap_err()),
        "payload does not start with the PNG signature"
    );
    assert_eq!(validate_png_payload(&PNG_SIGNATURE).unwrap(), 8);
}

#[test]
fn annotation_state_rejects_unknown_version() {
    let json = r#"{"version": 2, "shapes": [], "crop_region": null, "crop_confirmed": false}"#;
    let parsed: serde_json::Value = serde_json::from_str(json).unwrap();
    let version = parsed["version"].as_u64().unwrap() as u32;
    let reason = reason_of(check_state_version(version).unwrap_err());
    assert!(reason.contains("version 2"));
    assert_eq!(reason, "state_json version 2 not supported (expected 1)");
    assert!(check_state_version(1).is_ok());
}

#[test]
fn annotation_state_rejects_oversized_json() {
    let json = "x".repeat(MAX_STATE_JSON_BYTES + 1);
    let reason = reason_of(check_state_json_size(&json).unwrap_err());
    assert!(reason.contains("too large"));
    assert_eq!(reason, "state_json too large: 1048577 bytes (max 1048576 bytes / 1 MiB)");
    assert!(check_state_json_size(&"x".repeat(MAX_STATE_JSON_BYTES)).is_ok());
}

#[test]
fn state_size_counts_utf8_bytes() {
    // Each 'é' is two bytes, so this is one byte over the limit.
    let mut json = "é".repeat(MAX_STATE_JSON_BYTES / 2);
    json.push('x');
    assert!(check_state_json_size(&json).is_err());
}

#[test]
fn error_display_messages_include_relevant_fields() {
    assert!(AnnotateError::Image { message: "bad".into() }.message().contains("bad"));
    assert!(AnnotateError::InvalidInput { reason: "empty".into() }.message().contains("empty"));
    assert!(AnnotateError::Library { message: "x".into() }.message().contains("library"));
    assert!(CaptureError::WindowNotFound { id: 42 }.message().contains("42"));
    assert!(CaptureError::Os { message: "boom".into() }.message().contains("boom"));
    assert!(CaptureError::Encode { message: "bad".into() }.message().contains("bad"));
    assert!(CaptureError::Library { message: "x".into() }.message().contains("library"));
    assert!(ClipboardError::Access { message: "denied".into() }.message().contains("denied"));
    assert!(ClipboardError::PasteFailed { reason: "too short".into() }
        .message()
        .contains("too short"));
    assert!(ClipboardError::NotFound { what: "item x".into() }.message().contains("item x"));
    assert!(ClipboardError::Library { message: "y".into() }.message().contains("library"));
}

#[test]
fn error_messages_are_exact() {
    assert_eq!(AnnotateError::InvalidInput { reason: "r".into() }.message(), "invalid input: r");
    assert_eq!(CaptureError::MonitorNotFound { id: 7 }.message(), "monitor not found: 7");
    assert_eq!(CaptureError::NoMonitors.message(), "no monitors found");
    assert_eq!(ClipboardError::PasteFailed { reason: "x".into() }.message(), "paste failed: x");
    assert_eq!(
        ClipboardError::AccessibilityRequired.message(),
        "accessibility permission required"
    );
}
