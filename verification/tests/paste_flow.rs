use snapper_keeper::clipboard_error::ClipboardError;
use snapper_keeper::paste::{paste_item_with, HostCall, KeyStroke, PasteChord, PasteHost, PasteItem};
use snapper_keeper::platform::Platform;
use snapper_keeper::skip_set::SkipSet;
use snapper_keeper::source_app::SourceApp;
use snapper_keeper::watcher::ClipboardItemKind;

#[derive(Default)]
struct Host {
    setting: Option<Option<bool>>,
    file: Option<Vec<u8>>,
    steps: Vec<String>,
    log: Vec<HostCall>,
}

fn copy_host_call(call: &HostCall) -> HostCall {
    match call {
        HostCall::ImagePasteSetting { answer } => HostCall::ImagePasteSetting { answer: answer.clone() },
        HostCall::ReadFile { relative, answer } => {
            HostCall::ReadFile { relative: relative.clone(), answer: answer.clone() }
        }
        HostCall::RestoreTarget { target, answer } => {
            HostCall::RestoreTarget { target: target.clone(), answer: answer.clone() }
        }
        HostCall::Settle { ms } => HostCall::Settle { ms: *ms },
        HostCall::PostKeys { chord, keys, answer } => {
            HostCall::PostKeys { chord: *chord, keys: keys.clone(), answer: answer.clone() }
        }
        HostCall::Bump { id, answer } => HostCall::Bump { id: id.clone(), answer: answer.clone() },
    }
}

impl PasteHost for Host {
    fn calls(&self) -> Vec<HostCall> {
        self.log.iter().map(copy_host_call).collect()
    }

    fn image_paste_setting(&mut self) -> Result<Option<Option<bool>>, ClipboardError> {
        self.steps.push("setting".into());
        let answer = Ok(self.setting);
        self.log.push(HostCall::ImagePasteSetting { answer: answer.clone() });
        answer
    }

    fn read_file(&mut self, relative: &str) -> Result<Vec<u8>, String> {
        self.steps.push(format!("read:{relative}"));
        let answer = self.file.clone().ok_or_else(|| "missing".to_string());
        self.log.push(HostCall::ReadFile { relative: relative.to_string(), answer: answer.clone() });
        answer
    }

    fn restore_target(&mut self, target: &SourceApp) -> Result<(), ClipboardError> {
        self.steps.push("restore".into());
        self.log.push(HostCall::RestoreTarget { target: target.clone(), answer: Ok(()) });
        Ok(())
    }

    fn settle(&mut self, ms: u64) {
        self.steps.push(format!("settle:{ms}"));
        self.log.push(HostCall::Settle { ms });
    }

    fn post_keys(&mut self, chord: PasteChord, keys: Vec<KeyStroke>) -> Result<(), ClipboardError> {
        self.steps.push("keys".into());
        self.log.push(HostCall::PostKeys { chord, keys, answer: Ok(()) });
        Ok(())
    }

    fn bump(&mut self, id: &str) -> Result<(), ClipboardError> {
        self.steps.push(format!("bump:{id}"));
        self.log.push(HostCall::Bump { id: id.to_string(), answer: Ok(()) });
        Ok(())
    }
}

fn reason(r: Result<(), ClipboardError>) -> String {
    match r {
        Err(ClipboardError::PasteFailed { reason }) => reason,
        other => panic!("expected PasteFailed, got {other:?}"),
    }
}

fn image_item(path: Option<&str>) -> PasteItem {
    PasteItem { kind: ClipboardItemKind::Image, text_content: None, file_path: path.map(String::from) }
}

#[test]
fn text_item_without_text_fails_before_touching_anything() {
    let mut host = Host::default();
    let mut skip = SkipSet::new();
    let item = PasteItem { kind: ClipboardItemKind::Text, text_content: None, file_path: None };
    let r = paste_item_with(&mut host, &mut skip, 0, Platform::Windows, true, "id-1", item, None);
    assert_eq!(reason(r), "text item has no text_content");
    assert!(host.steps.is_empty());
    assert!(skip.hashes().is_empty());
}

#[test]
fn disabled_image_paste_stops_after_reading_the_setting() {
    let mut host = Host { setting: Some(Some(false)), ..Default::default() };
    let mut skip = SkipSet::new();
    let r = paste_item_with(&mut host, &mut skip, 0, Platform::Windows, true, "id-2", image_item(Some("a.png")), None);
    assert_eq!(reason(r), "image paste is disabled (clipboard.image_paste_enabled = false)");
    assert_eq!(host.steps, vec!["setting".to_string()]);
}

#[test]
fn image_item_read_and_decode_failures() {
    let mut host = Host::default();
    let mut skip = SkipSet::new();
    let r = paste_item_with(&mut host, &mut skip, 0, Platform::Windows, true, "id", image_item(None), None);
    assert_eq!(reason(r), "image item has no file_path");

    let mut host = Host::default();
    let r = paste_item_with(&mut host, &mut skip, 0, Platform::Windows, true, "id", image_item(Some("a.png")), None);
    assert_eq!(reason(r), "read image file: missing");
    assert_eq!(host.steps, vec!["setting".to_string(), "read:a.png".to_string()]);

    let mut host = Host { file: Some(b"not a png".to_vec()), ..Default::default() };
    let r = paste_item_with(&mut host, &mut skip, 0, Platform::Windows, true, "id", image_item(Some("a.png")), None);
    assert!(reason(r).starts_with("decode image: "));
    assert!(skip.hashes().is_empty());
}
