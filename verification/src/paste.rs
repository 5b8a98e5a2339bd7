//! Pasting a history item back into the application the user came from:
//! what is put on the clipboard, which keystroke pastes it and whether the
//! platform allows it, and waiting for the target to regain focus.
use vstd::prelude::*;

use crate::clipboard_error::ClipboardError;
use crate::os_clipboard::{open_paste_clipboard, write_os_image, write_paste_text, PasteClipboard};
use crate::blocklist::BlocklistEntry;
use crate::skip_set::{is_live, lemma_mark_then_skip, live_entries, SkipSet};
use crate::text::utf8_bytes;
use crate::digest::{hash_content, spec_hash_content};
use crate::image_codec::{decode_rgba8, rgba8_decoding};
use crate::platform::Platform;
use crate::source_app::{spec_identifier_matches, SourceApp, SourceAppKind};
use crate::text::{decimal, push_decimal, push_str};
use crate::call_record::{extends, lemma_chain, lemma_extends_itself, lemma_one_call_more, one_call_more, since};
use crate::watcher::{early_exit, spec_event_bytes, ClipboardEvent, ClipboardItemKind, SkipReason};

verus! {

/// Wait between writing the clipboard and synthesizing the paste keystroke,
/// in milliseconds.
pub const PASTE_SETTLE_MS: u64 = 50;

/// Wait between two focus checks, in milliseconds.
pub const FOCUS_RESTORE_POLL_MS: u64 = 20;

/// How many times focus is checked before giving up.
pub const FOCUS_RESTORE_ATTEMPTS: usize = 25;

/// Whether synthetic paste is permitted: macOS gates it behind the
/// Accessibility grant (`ax_trusted`); other platforms always allow it.
pub open spec fn spec_accessibility_granted(platform: Platform, ax_trusted: bool) -> bool {
    platform != Platform::MacOs || ax_trusted
}

/// Whether synthetic paste is permitted right now.
pub fn accessibility_granted(platform: Platform, ax_trusted: bool) -> (r: bool)
    ensures
        r == spec_accessibility_granted(platform, ax_trusted),
{
    match platform {
        Platform::MacOs => ax_trusted,
        _ => true,
    }
}

/// Whether the process holds the permission auto-paste needs.
#[derive(Debug, Clone, Copy, PartialEq, Eq)]
pub struct PermissionStatus {
    pub accessibility_granted: bool,
}

/// The permission report shown by the popup.
pub fn status(platform: Platform, ax_trusted: bool) -> (r: PermissionStatus)
    ensures
        r.accessibility_granted == spec_accessibility_granted(platform, ax_trusted),
{
    PermissionStatus { accessibility_granted: accessibility_granted(platform, ax_trusted) }
}

/// The keystroke that pastes on a platform.
#[derive(Debug, Clone, Copy, PartialEq, Eq, Structural)]
pub enum PasteChord {
    /// Ctrl+V, sent as key events on Windows.
    ControlV,
    /// Cmd+V, posted as a keyboard event on macOS.
    CommandV,
}

/// Which paste keystroke to synthesize. Windows pastes with Ctrl+V. macOS
/// pastes with Cmd+V, which the OS silently drops without the Accessibility
/// grant, so its absence is reported as an error instead. Other platforms
/// cannot synthesize a paste.
pub fn synthesize_paste(platform: Platform, ax_trusted: bool) -> (r: Result<
    PasteChord,
    ClipboardError,
>)
    ensures
        platform == Platform::Windows ==> r == Ok::<PasteChord, ClipboardError>(PasteChord::ControlV),
        platform == Platform::MacOs && ax_trusted ==> r == Ok::<PasteChord, ClipboardError>(
            PasteChord::CommandV,
        ),
        platform == Platform::MacOs && !ax_trusted ==> r == Err::<PasteChord, ClipboardError>(
            ClipboardError::AccessibilityRequired,
        ),
        platform == Platform::Other ==> (r matches Err(ClipboardError::PasteFailed { reason })
            && reason@ == "unsupported platform"@),
{
    match platform {
        Platform::Windows => Ok(PasteChord::ControlV),
        Platform::MacOs => {
            if !ax_trusted {
                Err(ClipboardError::AccessibilityRequired)
            } else {
                Ok(PasteChord::CommandV)
            }
        },
        Platform::Other => {
            let mut reason = String::new();
            push_str(&mut reason, "unsupported platform");
            Err(ClipboardError::PasteFailed { reason })
        },
    }
}

/// One synthetic key event: a virtual key code, pressed or released, and
/// whether it carries the Command modifier flag.
#[derive(Debug, Clone, Copy, PartialEq, Eq, Structural)]
pub struct KeyStroke {
    pub key_code: u16,
    pub key_up: bool,
    pub command: bool,
}

/// Windows' virtual key code of Ctrl.
pub const VK_CONTROL: u16 = 0x11;

/// Windows' virtual key code of V.
pub const VK_V: u16 = 0x56;

/// macOS' key code of V.
pub const MAC_KEY_V: u16 = 9;

/// The key events that paste: Ctrl down, V down, V up, Ctrl up on
/// Windows; V down and V up, both flagged with Command, on macOS.
pub open spec fn spec_paste_keystrokes(chord: PasteChord) -> Seq<KeyStroke> {
    match chord {
        PasteChord::ControlV => seq![
            KeyStroke { key_code: VK_CONTROL, key_up: false, command: false },
            KeyStroke { key_code: VK_V, key_up: false, command: false },
            KeyStroke { key_code: VK_V, key_up: true, command: false },
            KeyStroke { key_code: VK_CONTROL, key_up: true, command: false },
        ],
        PasteChord::CommandV => seq![
            KeyStroke { key_code: MAC_KEY_V, key_up: false, command: true },
            KeyStroke { key_code: MAC_KEY_V, key_up: true, command: true },
        ],
    }
}

/// The key events to post for a paste chord, in order.
pub fn paste_keystrokes(chord: PasteChord) -> (r: Vec<KeyStroke>)
    ensures
        r@ == spec_paste_keystrokes(chord),
{
    match chord {
        PasteChord::ControlV => vec![
            KeyStroke { key_code: VK_CONTROL, key_up: false, command: false },
            KeyStroke { key_code: VK_V, key_up: false, command: false },
            KeyStroke { key_code: VK_V, key_up: true, command: false },
            KeyStroke { key_code: VK_CONTROL, key_up: true, command: false },
        ],
        PasteChord::CommandV => vec![
            KeyStroke { key_code: MAC_KEY_V, key_up: false, command: true },
            KeyStroke { key_code: MAC_KEY_V, key_up: true, command: true },
        ],
    }
}

/// The outcome of handing the four Ctrl+V events to Windows' `SendInput`,
/// which returns how many it inserted: all four, or a `PasteFailed` error.
pub fn check_sent_inputs(sent: u32) -> (r: Result<(), ClipboardError>)
    ensures
        sent == 4 ==> r is Ok,
        sent != 4 ==> (r matches Err(ClipboardError::PasteFailed { reason }) && reason@
            == "SendInput returned "@ + decimal(sent as nat) + ", expected 4"@),
{
    if sent != 4 {
        let mut reason = String::new();
        push_str(&mut reason, "SendInput returned ");
        push_decimal(&mut reason, sent as u64);
        push_str(&mut reason, ", expected 4");
        return Err(ClipboardError::PasteFailed { reason });
    }
    Ok(())
}

/// Whether the focused application `current` is the paste target: same
/// kind, and an identifier that matches under that kind's case rule.
pub open spec fn spec_is_focus_target(target: SourceApp, current: Option<SourceApp>) -> bool {
    match current {
        Some(app) => app.kind == target.kind && spec_identifier_matches(
            app.kind,
            app.identifier@,
            target.identifier@,
        ),
        None => false,
    }
}

/// Whether the focused application is the paste target.
pub fn is_focus_target(target: &SourceApp, current: &Option<SourceApp>) -> (r: bool)
    ensures
        r == spec_is_focus_target(*target, *current),
{
    match current {
        Some(app) => app.kind == target.kind && app.identifier_matches(
            target.identifier.as_str(),
        ),
        None => false,
    }
}

/// What the focus wait does after its check number `attempt` (counted
/// from 0): a check that found the target ends it; a miss sleeps
/// `FOCUS_RESTORE_POLL_MS`, then checks again while fewer than
/// `FOCUS_RESTORE_ATTEMPTS` checks were made, and gives up otherwise.
#[derive(Debug, Clone, Copy, PartialEq, Eq, Structural)]
pub enum FocusStep {
    Found,
    SleepThenCheck { next: usize },
    SleepThenGiveUp,
}

/// The focus wait's decision after check number `attempt`.
pub fn focus_step(attempt: usize, found: bool) -> (r: FocusStep)
    requires
        attempt < FOCUS_RESTORE_ATTEMPTS,
    ensures
        found ==> r == FocusStep::Found,
        !found && attempt + 1 < FOCUS_RESTORE_ATTEMPTS ==> r == (FocusStep::SleepThenCheck { next: (attempt + 1) as usize }),
        !found && attempt + 1 == FOCUS_RESTORE_ATTEMPTS ==> r == FocusStep::SleepThenGiveUp,
{
    if found {
        FocusStep::Found
    } else if attempt + 1 < FOCUS_RESTORE_ATTEMPTS {
        FocusStep::SleepThenCheck { next: attempt + 1 }
    } else {
        FocusStep::SleepThenGiveUp
    }
}

/// Polls the focused application until it is `target_app`, sleeping
/// `FOCUS_RESTORE_POLL_MS` after each miss, for at most
/// `FOCUS_RESTORE_ATTEMPTS` checks. True as soon as a check finds the
/// target; false when every check missed.
pub fn wait_for_focus_restore_with<F, S>(target_app: &SourceApp, mut current: F, mut sleep: S) -> (r: bool) where
    F: FnMut() -> Option<SourceApp>,
    S: FnMut(u64),

    requires
        forall|f: F| f.requires(()),
        forall|s: S, ms: u64| s.requires((ms,)),
    ensures
        r ==> exists|f: F, app: Option<SourceApp>| f.ensures((), app) && spec_is_focus_target(
            *target_app,
            app,
        ),
        (forall|f: F, app: Option<SourceApp>| f.ensures((), app) ==> spec_is_focus_target(
            *target_app,
            app,
        )) ==> r,
        (forall|f: F, app: Option<SourceApp>| f.ensures((), app) ==> !spec_is_focus_target(
            *target_app,
            app,
        )) ==> !r,
{
    let mut i: usize = 0;
    loop
        invariant
            i < FOCUS_RESTORE_ATTEMPTS,
            forall|f: F| f.requires(()),
            forall|s: S, ms: u64| s.requires((ms,)),
            (forall|f: F, app: Option<SourceApp>| f.ensures((), app) ==> spec_is_focus_target(
                *target_app,
                app,
            )) ==> i == 0,
        decreases FOCUS_RESTORE_ATTEMPTS - i,
    {
        let app = current();
        match focus_step(i, is_focus_target(target_app, &app)) {
            FocusStep::Found => {
                return true;
            },
            FocusStep::SleepThenCheck { next } => {
                sleep(FOCUS_RESTORE_POLL_MS);
                i = next;
            },
            FocusStep::SleepThenGiveUp => {
                sleep(FOCUS_RESTORE_POLL_MS);
                return false;
            },
        }
    }
}

/// The outcome of giving focus back to the paste target, from what asking
/// the OS to activate it gave and whether focus was then seen on it: a
/// request that could not be scheduled, a refused activation and a focus
/// that never came back are each their own `PasteFailed` reason.
pub open spec fn spec_restore_outcome(
    activation: Result<bool, String>,
    focused: bool,
    display_name: Seq<char>,
) -> Result<(), Seq<char>> {
    match activation {
        Err(m) => Err("schedule focus restore: "@ + m@),
        Ok(false) => Err("failed to reactivate "@ + display_name),
        Ok(true) => if focused {
            Ok(())
        } else {
            Err("timed out restoring focus to "@ + display_name)
        },
    }
}

/// `r` reports the outcome `o`: success, or a `PasteFailed` with its reason.
pub open spec fn reports(r: Result<(), ClipboardError>, o: Result<(), Seq<char>>) -> bool {
    match o {
        Ok(()) => r is Ok,
        Err(reason) => r matches Err(ClipboardError::PasteFailed { reason: got }) && got@ == reason,
    }
}

/// The result of restoring focus, as `spec_restore_outcome` gives it.
pub fn restore_outcome(activation: Result<bool, String>, focused: bool, display_name: &str) -> (r: Result<
    (),
    ClipboardError,
>)
    ensures
        reports(r, spec_restore_outcome(activation, focused, display_name@)),
{
    match activation {
        Err(m) => {
            let mut reason = String::new();
            push_str(&mut reason, "schedule focus restore: ");
            push_str(&mut reason, m.as_str());
            Err(ClipboardError::PasteFailed { reason })
        },
        Ok(false) => {
            let mut reason = String::new();
            push_str(&mut reason, "failed to reactivate ");
            push_str(&mut reason, display_name);
            Err(ClipboardError::PasteFailed { reason })
        },
        Ok(true) => {
            if focused {
                Ok(())
            } else {
                let mut reason = String::new();
                push_str(&mut reason, "timed out restoring focus to ");
                push_str(&mut reason, display_name);
                Err(ClipboardError::PasteFailed { reason })
            }
        },
    }
}

/// Gives focus back to the application the user pasted into, on macOS,
/// before the paste keystroke. Elsewhere, and for a target that is not a
/// macOS bundle, nothing is done. `activate` asks the OS to activate the
/// application with the given bundle id: `Err` when the request could not
/// be scheduled, else whether it was activated. After an activation, focus
/// is awaited as `wait_for_focus_restore_with` does. The result is
/// `restore_outcome` of what activation gave and whether focus came back.
pub fn restore_paste_target_with<A, F, S>(
    platform: Platform,
    target_app: &SourceApp,
    activate: A,
    current: F,
    sleep: S,
) -> (r: Result<(), ClipboardError>) where
    A: FnOnce(&str) -> Result<bool, String>,
    F: FnMut() -> Option<SourceApp>,
    S: FnMut(u64),

    requires
        forall|id: &str| activate.requires((id,)),
        forall|f: F| f.requires(()),
        forall|s: S, ms: u64| s.requires((ms,)),
    ensures
        platform != Platform::MacOs || target_app.kind != SourceAppKind::MacosBundleId ==> r is Ok,
        platform == Platform::MacOs && target_app.kind == SourceAppKind::MacosBundleId ==> exists|
            id: &str,
            activation: Result<bool, String>,
            focused: bool,
        |
            #![trigger activate.ensures((id,), activation), spec_restore_outcome(activation, focused, target_app.display_name@)]
            id@ == target_app.identifier@ && activate.ensures((id,), activation) && reports(
                r,
                spec_restore_outcome(activation, focused, target_app.display_name@),
            ) && (focused ==> exists|f: F, app: Option<SourceApp>| f.ensures((), app) && spec_is_focus_target(*target_app, app))
              && (activation == Ok::<bool, String>(true) && (forall|f: F, app: Option<SourceApp>|
                f.ensures((), app) ==> spec_is_focus_target(*target_app, app)) ==> focused),
{
    if platform != Platform::MacOs || target_app.kind != SourceAppKind::MacosBundleId {
        return Ok(());
    }
    let id = target_app.identifier.as_str();
    let activation = activate(id);
    let focused = match &activation {
        Ok(true) => wait_for_focus_restore_with(target_app, current, sleep),
        _ => false,
    };
    let ghost a = activation;
    let r = restore_outcome(activation, focused, target_app.display_name.as_str());
    proof {
        assert(activate.ensures((id,), a));
        assert(reports(r, spec_restore_outcome(a, focused, target_app.display_name@)));
    }
    r
}

/// What a history item puts on the clipboard when pasted.
#[derive(Debug, Clone, PartialEq, Eq)]
pub enum PasteContent {
    /// The item's text.
    Text(String),
    /// The library-relative path of the item's PNG.
    ImageFile(String),
}

/// Whether image paste is enabled: the setting's boolean value, and
/// enabled when the setting is absent or not a boolean.
pub open spec fn image_paste_enabled(setting: Option<Option<bool>>) -> bool {
    match setting {
        Some(Some(b)) => b,
        _ => true,
    }
}

/// What pasting an item puts on the clipboard, or why it cannot: a text
/// item needs its text; an image item needs image paste enabled, then its
/// stored file.
pub open spec fn spec_plan_paste(
    kind: ClipboardItemKind,
    text_content: Option<String>,
    file_path: Option<String>,
    setting: Option<Option<bool>>,
) -> Result<PasteContent, Seq<char>> {
    match kind {
        ClipboardItemKind::Text => match text_content {
            Some(t) => Ok(PasteContent::Text(t)),
            None => Err("text item has no text_content"@),
        },
        ClipboardItemKind::Image => if !image_paste_enabled(setting) {
            Err("image paste is disabled (clipboard.image_paste_enabled = false)"@)
        } else {
            match file_path {
                Some(p) => Ok(PasteContent::ImageFile(p)),
                None => Err("image item has no file_path"@),
            }
        },
    }
}

/// Decides what pasting an item puts on the clipboard. A text item needs
/// its text; an image item needs image paste enabled, then its stored file.
/// `image_paste_setting` is the stored setting (absent, or its value read as
/// a boolean when it is one).
pub fn plan_paste(
    kind: ClipboardItemKind,
    text_content: Option<String>,
    file_path: Option<String>,
    image_paste_setting: Option<Option<bool>>,
) -> (r: Result<PasteContent, ClipboardError>)
    ensures
        match spec_plan_paste(kind, text_content, file_path, image_paste_setting) {
            Ok(content) => r == Ok::<PasteContent, ClipboardError>(content),
            Err(message) => r matches Err(ClipboardError::PasteFailed { reason }) && reason@ == message,
        },
{
    match kind {
        ClipboardItemKind::Text => match text_content {
            Some(t) => Ok(PasteContent::Text(t)),
            None => {
                let mut reason = String::new();
                push_str(&mut reason, "text item has no text_content");
                Err(ClipboardError::PasteFailed { reason })
            },
        },
        ClipboardItemKind::Image => {
            let enabled = match image_paste_setting {
                Some(Some(b)) => b,
                _ => true,
            };
            if !enabled {
                let mut reason = String::new();
                push_str(
                    &mut reason,
                    "image paste is disabled (clipboard.image_paste_enabled = false)",
                );
                return Err(ClipboardError::PasteFailed { reason });
            }
            match file_path {
                Some(p) => Ok(PasteContent::ImageFile(p)),
                None => {
                    let mut reason = String::new();
                    push_str(&mut reason, "image item has no file_path");
                    Err(ClipboardError::PasteFailed { reason })
                },
            }
        },
    }
}

/// A stored image made ready for the clipboard: its RGBA8 pixels and the
/// content hash the watcher will see when it observes them.
#[derive(Debug, Clone)]
pub struct ImagePaste {
    pub width: u32,
    pub height: u32,
    pub rgba: Vec<u8>,
    pub hash: u64,
}

/// Decodes a stored PNG to RGBA8 and hashes the pixels, so that the
/// watcher can recognize the paste as the app's own write.
pub fn prepare_image_paste(png_bytes: &[u8]) -> (r: Result<ImagePaste, ClipboardError>)
    ensures
        match rgba8_decoding(png_bytes@) {
            Some((w, h, px)) => r matches Ok(p) && p.width == w && p.height == h && p.rgba@ == px
                && p.hash == spec_hash_content(px) && p.rgba@.len() == p.width * p.height * 4,
            None => r matches Err(ClipboardError::PasteFailed { reason }) && exists|e: Seq<char>|
                reason@ == "decode image: "@ + e,
        },
{
    match decode_rgba8(png_bytes) {
        Ok((width, height, rgba)) => {
            let hash = hash_content(rgba.as_slice());
            Ok(ImagePaste { width, height, rgba, hash })
        },
        Err(e) => {
            let mut reason = String::new();
            push_str(&mut reason, "decode image: ");
            push_str(&mut reason, e.as_str());
            Err(ClipboardError::PasteFailed { reason })
        },
    }
}

/// Text the app put on the clipboard for pasting at `marked` is skipped
/// as the app's own write when the watcher observes it within the TTL,
/// whatever else holds of it.
pub proof fn lemma_pasted_text_is_own_write(
    s: Seq<(u64, u64)>,
    text: String,
    marked: u64,
    now: u64,
    last_hash: Option<String>,
    sensitive: bool,
    blocklist: Seq<BlocklistEntry>,
    source: Option<SourceApp>,
)
    requires
        is_live(now, marked),
    ensures
        early_exit(
            ClipboardEvent::Text(text),
            last_hash,
            live_entries(live_entries(s, marked).push((spec_hash_content(utf8_bytes(text@)), marked)), now),
            sensitive,
            blocklist,
            source,
        ) == Some(SkipReason::OwnWrite),
{
    let event = ClipboardEvent::Text(text);
    assert(spec_event_bytes(event) == utf8_bytes(text@));
    lemma_mark_then_skip(s, spec_hash_content(utf8_bytes(text@)), marked, now);
}

/// Opens the OS clipboard for writing; failure is an `Access` error.
fn open_for_paste() -> (r: Result<PasteClipboard, ClipboardError>)
    ensures
        r is Err ==> r matches Err(ClipboardError::Access { .. }),
        r matches Ok(c) ==> c.handed_image() is None,
{
    match open_paste_clipboard() {
        Ok(c) => Ok(c),
        Err(message) => Err(ClipboardError::Access { message }),
    }
}

/// Puts `text` on the clipboard for pasting: opens the clipboard, marks the
/// text's content hash in the skip set so that the watcher does not record
/// the app's own write, and writes the text. A clipboard failure is an
/// `Access` error; when the clipboard cannot be opened nothing is marked.
/// The clipboard written to is returned, to be held until the paste is
/// done.
pub fn write_text_for_paste(skip: &mut SkipSet, now: u64, text: &str) -> (r: Result<PasteClipboard, ClipboardError>)
    ensures
        ({
            let marked = live_entries(old(skip)@, now).push((spec_hash_content(utf8_bytes(text@)), now));
            &&& r is Ok ==> final(skip)@ == marked
            &&& final(skip)@ == marked || final(skip)@ == old(skip)@
        }),
        r is Err ==> r matches Err(ClipboardError::Access { .. }),
{
    let mut clipboard = open_for_paste()?;
    skip.mark_emitted(hash_content(text.as_bytes()), now);
    match write_paste_text(&mut clipboard, text) {
        Ok(()) => Ok(clipboard),
        Err(message) => Err(ClipboardError::Access { message }),
    }
}

/// Puts a prepared image on the clipboard for pasting: marks its pixel
/// hash in the skip set, opens the clipboard and writes the pixels. A
/// clipboard failure is an `Access` error. The clipboard written to is
/// returned, to be held until the paste is done; the image it was handed is
/// the prepared one, with its width, height and pixels as they are.
pub fn write_image_for_paste(skip: &mut SkipSet, now: u64, image: ImagePaste) -> (r: Result<
    PasteClipboard,
    ClipboardError,
>)
    requires
        image.rgba@.len() == image.width * image.height * 4,
    ensures
        final(skip)@ == live_entries(old(skip)@, now).push((image.hash, now)),
        r is Err ==> r matches Err(ClipboardError::Access { .. }),
        r matches Ok(c) ==> c.handed_image() == Some(
            (image.width as usize, image.height as usize, image.rgba@),
        ),
{
    skip.mark_emitted(image.hash, now);
    let mut clipboard = open_for_paste()?;
    let ImagePaste { width, height, rgba, hash: _ } = image;
    match write_os_image(&mut clipboard, width as usize, height as usize, rgba) {
        Ok(()) => Ok(clipboard),
        Err(message) => Err(ClipboardError::Access { message }),
    }
}

/// A clipboard history item as pasting needs it.
#[derive(Debug, Clone, PartialEq, Eq)]
pub struct PasteItem {
    pub kind: ClipboardItemKind,
    pub text_content: Option<String>,
    /// Library-relative path of the stored PNG, for images.
    pub file_path: Option<String>,
}

/// One call pasting made on its host, with the host's answer.
#[derive(Debug)]
pub enum HostCall {
    ImagePasteSetting { answer: Result<Option<Option<bool>>, ClipboardError> },
    ReadFile { relative: String, answer: Result<Vec<u8>, String> },
    RestoreTarget { target: SourceApp, answer: Result<(), ClipboardError> },
    Settle { ms: u64 },
    PostKeys { chord: PasteChord, keys: Vec<KeyStroke>, answer: Result<(), ClipboardError> },
    Bump { id: String, answer: Result<(), ClipboardError> },
}

/// What pasting needs from the application around it. A host keeps the
/// record of the calls made on it, each with the answer it gave.
pub trait PasteHost {
    /// Every call made on this host so far, with its answer, oldest first.
    spec fn calls(&self) -> Vec<HostCall>;

    /// The stored `clipboard.image_paste_enabled` setting: absent, or its
    /// value read as a boolean when it is one.
    fn image_paste_setting(&mut self) -> (r: Result<Option<Option<bool>>, ClipboardError>)
        ensures
            one_call_more(old(self).calls()@, final(self).calls()@),
            final(self).calls()@.last() matches HostCall::ImagePasteSetting { answer } && answer == r,
    ;

    /// The bytes of the library file at `relative`; on failure its error text.
    fn read_file(&mut self, relative: &str) -> (r: Result<Vec<u8>, String>)
        ensures
            one_call_more(old(self).calls()@, final(self).calls()@),
            final(self).calls()@.last() matches HostCall::ReadFile { relative: rel, answer } && rel@
                == relative@ && answer == r,
    ;

    /// Give focus back to the application the user pasted into.
    fn restore_target(&mut self, target: &SourceApp) -> (r: Result<(), ClipboardError>)
        ensures
            one_call_more(old(self).calls()@, final(self).calls()@),
            final(self).calls()@.last() matches HostCall::RestoreTarget { target: t, answer } && t
                == *target && answer == r,
    ;

    /// Wait `ms` milliseconds.
    fn settle(&mut self, ms: u64)
        ensures
            one_call_more(old(self).calls()@, final(self).calls()@),
            final(self).calls()@.last() matches HostCall::Settle { ms: m } && m == ms,
    ;

    /// Post the key events of a paste.
    fn post_keys(&mut self, chord: PasteChord, keys: Vec<KeyStroke>) -> (r: Result<(), ClipboardError>)
        ensures
            one_call_more(old(self).calls()@, final(self).calls()@),
            final(self).calls()@.last() matches HostCall::PostKeys { chord: c, keys: k, answer } && c
                == chord && k@ == keys@ && answer == r,
    ;

    /// Move the item to the top of the history.
    fn bump(&mut self, id: &str) -> (r: Result<(), ClipboardError>)
        ensures
            one_call_more(old(self).calls()@, final(self).calls()@),
            final(self).calls()@.last() matches HostCall::Bump { id: i, answer } && i@ == id@ && answer
                == r,
    ;
}

/// The keystroke that pastes on a platform, if it may be synthesized.
pub open spec fn spec_paste_chord(platform: Platform, ax_trusted: bool) -> Option<PasteChord> {
    match platform {
        Platform::Windows => Some(PasteChord::ControlV),
        Platform::MacOs => if ax_trusted {
            Some(PasteChord::CommandV)
        } else {
            None
        },
        Platform::Other => None,
    }
}

/// The error a paste is refused with where no keystroke may be
/// synthesized.
pub open spec fn is_paste_refusal(platform: Platform, e: ClipboardError) -> bool {
    match platform {
        Platform::MacOs => e == ClipboardError::AccessibilityRequired,
        _ => e matches ClipboardError::PasteFailed { reason } && reason@ == "unsupported platform"@,
    }
}

/// The host calls `u` from the settling wait on, and the result: the
/// clipboard is given time to settle; a platform that may not synthesize
/// the paste refuses it; otherwise the paste keystroke is posted and, once
/// posted, the item is bumped, whose answer is the result.
pub open spec fn settle_run(u: Seq<HostCall>, id: Seq<char>, platform: Platform, ax_trusted: bool, r: Result<
    (),
    ClipboardError,
>) -> bool {
    &&& u.len() >= 1
    &&& u[0] matches HostCall::Settle { ms }
    &&& ms == PASTE_SETTLE_MS
    &&& match spec_paste_chord(platform, ax_trusted) {
        None => {
            &&& u.len() == 1
            &&& r matches Err(e)
            &&& is_paste_refusal(platform, e)
        },
        Some(chord) => {
            &&& u.len() >= 2
            &&& u[1] matches HostCall::PostKeys { chord: posted, keys, answer }
            &&& posted == chord
            &&& keys@ == spec_paste_keystrokes(chord)
            &&& match answer {
                Err(e) => u.len() == 2 && r == Err::<(), ClipboardError>(e),
                Ok(()) => {
                    &&& u.len() == 3
                    &&& u[2] matches HostCall::Bump { id: bumped, answer: outcome }
                    &&& bumped@ == id
                    &&& r == outcome
                },
            }
        },
    }
}

/// The host calls `u` once the content is on the clipboard, and the
/// result: focus is given back to the target first, if there is one, and a
/// failure there is the result.
pub open spec fn finish_run(
    u: Seq<HostCall>,
    id: Seq<char>,
    target_app: Option<SourceApp>,
    platform: Platform,
    ax_trusted: bool,
    r: Result<(), ClipboardError>,
) -> bool {
    match target_app {
        Some(app) => {
            &&& u.len() >= 1
            &&& u[0] matches HostCall::RestoreTarget { target, answer }
            &&& target == app
            &&& match answer {
                Err(e) => u.len() == 1 && r == Err::<(), ClipboardError>(e),
                Ok(()) => settle_run(u.skip(1), id, platform, ax_trusted, r),
            }
        },
        None => settle_run(u, id, platform, ax_trusted, r),
    }
}

/// The host calls `u` of a paste once the image setting is known, and
/// what they leave: a refused plan fails with its reason before anything
/// is touched. Text is put on the clipboard with its content hash marked;
/// an image file is read, decoded, its pixel hash marked and its pixels put
/// on the clipboard. A failed read or decode fails before anything is
/// marked; a clipboard failure is an `Access` error. Then the paste is
/// finished.
pub open spec fn content_run(
    u: Seq<HostCall>,
    item: PasteItem,
    setting: Option<Option<bool>>,
    id: Seq<char>,
    target_app: Option<SourceApp>,
    platform: Platform,
    ax_trusted: bool,
    skip0: Seq<(u64, u64)>,
    now: u64,
    r: Result<(), ClipboardError>,
    skip1: Seq<(u64, u64)>,
) -> bool {
    match spec_plan_paste(item.kind, item.text_content, item.file_path, setting) {
        Err(message) => {
            &&& u.len() == 0
            &&& skip1 == skip0
            &&& r matches Err(ClipboardError::PasteFailed { reason })
            &&& reason@ == message
        },
        Ok(PasteContent::Text(t)) => {
            let marked = live_entries(skip0, now).push((spec_hash_content(utf8_bytes(t@)), now));
            ||| {
                &&& r matches Err(ClipboardError::Access { .. })
                &&& u.len() == 0
                &&& skip1 == marked || skip1 == skip0
            }
            ||| skip1 == marked && finish_run(u, id, target_app, platform, ax_trusted, r)
        },
        Ok(PasteContent::ImageFile(path)) => {
            &&& u.len() >= 1
            &&& u[0] matches HostCall::ReadFile { relative, answer }
            &&& relative@ == path@
            &&& match answer {
                Err(e) => {
                    &&& u.len() == 1
                    &&& skip1 == skip0
                    &&& r matches Err(ClipboardError::PasteFailed { reason })
                    &&& reason@ == "read image file: "@ + e@
                },
                Ok(png) => match rgba8_decoding(png@) {
                    None => {
                        &&& u.len() == 1
                        &&& skip1 == skip0
                        &&& r matches Err(ClipboardError::PasteFailed { reason })
                        &&& exists|e: Seq<char>| reason@ == "decode image: "@ + e
                    },
                    Some((w, h, px)) => {
                        &&& skip1 == live_entries(skip0, now).push((spec_hash_content(px), now))
                        &&& {
                            ||| (r matches Err(ClipboardError::Access { .. }) && u.len() == 1)
                            ||| finish_run(u.skip(1), id, target_app, platform, ax_trusted, r)
                        }
                    },
                },
            }
        },
    }
}

/// The host calls `u` of pasting `item`, and what they leave: for an image
/// item the image paste setting is read first, and a failed read is the
/// result.
pub open spec fn paste_run(
    u: Seq<HostCall>,
    item: PasteItem,
    id: Seq<char>,
    target_app: Option<SourceApp>,
    platform: Platform,
    ax_trusted: bool,
    skip0: Seq<(u64, u64)>,
    now: u64,
    r: Result<(), ClipboardError>,
    skip1: Seq<(u64, u64)>,
) -> bool {
    match item.kind {
        ClipboardItemKind::Text => content_run(u, item, None, id, target_app, platform, ax_trusted, skip0, now, r, skip1),
        ClipboardItemKind::Image => {
            &&& u.len() >= 1
            &&& u[0] matches HostCall::ImagePasteSetting { answer }
            &&& match answer {
                Err(e) => u.len() == 1 && skip1 == skip0 && r == Err::<(), ClipboardError>(e),
                Ok(setting) => content_run(
                    u.skip(1),
                    item,
                    setting,
                    id,
                    target_app,
                    platform,
                    ax_trusted,
                    skip0,
                    now,
                    r,
                    skip1,
                ),
            }
        },
    }
}

/// Gives focus back to the target, lets the clipboard settle, posts the
/// paste keystroke and bumps the item.
fn finish_paste<H: PasteHost>(
    host: &mut H,
    platform: Platform,
    ax_trusted: bool,
    id: &str,
    target_app: Option<SourceApp>,
) -> (r: Result<(), ClipboardError>)
    ensures
        extends(old(host).calls()@, final(host).calls()@),
        finish_run(since(old(host).calls()@, final(host).calls()@), id@, target_app, platform, ax_trusted, r),
{
    let ghost log0 = host.calls()@;
    proof {
        lemma_extends_itself(log0);
    }
    if let Some(target) = &target_app {
        let restored = host.restore_target(target);
        proof {
            lemma_one_call_more(log0, log0, host.calls()@);
        }
        if let Err(e) = restored {
            return Err(e);
        }
    }
    let ghost log1 = host.calls()@;
    host.settle(PASTE_SETTLE_MS);
    let ghost log2 = host.calls()@;
    proof {
        lemma_one_call_more(log0, log1, log2);
    }
    let chord = match synthesize_paste(platform, ax_trusted) {
        Ok(chord) => chord,
        Err(e) => {
            proof {
                if target_app is Some {
                    assert(since(log0, log2).skip(1) =~= seq![log2.last()]);
                }
            }
            return Err(e);
        },
    };
    let posted = host.post_keys(chord, paste_keystrokes(chord));
    let ghost log3 = host.calls()@;
    proof {
        lemma_one_call_more(log0, log2, log3);
    }
    if let Err(e) = posted {
        proof {
            if target_app is Some {
                assert(since(log0, log3).skip(1) =~= since(log0, log3).subrange(1, 3));
            }
        }
        return Err(e);
    }
    let bumped = host.bump(id);
    proof {
        lemma_one_call_more(log0, log3, host.calls()@);
        if target_app is Some {
            assert(since(log0, host.calls()@).skip(1) =~= since(log0, host.calls()@).subrange(1, 4));
        }
    }
    bumped
}

/// Pastes history item `id` into `target_app` (or wherever focus is).
///
/// A text item's text, or an image item's decoded pixels (when image paste
/// is enabled), are put on the clipboard with their content hash marked in
/// the skip set; focus is given back to the target, the clipboard is given
/// time to settle, the platform's paste keystroke is posted and the item is
/// moved to the top of the history. The first failing step's error is
/// returned.
pub fn paste_item_with<H: PasteHost>(
    host: &mut H,
    skip: &mut SkipSet,
    now: u64,
    platform: Platform,
    ax_trusted: bool,
    id: &str,
    item: PasteItem,
    target_app: Option<SourceApp>,
) -> (r: Result<(), ClipboardError>)
    ensures
        extends(old(host).calls()@, final(host).calls()@),
        paste_run(
            since(old(host).calls()@, final(host).calls()@),
            item,
            id@,
            target_app,
            platform,
            ax_trusted,
            old(skip)@,
            now,
            r,
            final(skip)@,
        ),
{
    let ghost log0 = host.calls()@;
    proof {
        lemma_extends_itself(log0);
    }
    let PasteItem { kind, text_content, file_path } = item;
    let setting = match kind {
        ClipboardItemKind::Text => None,
        ClipboardItemKind::Image => {
            let answer = host.image_paste_setting();
            proof {
                lemma_one_call_more(log0, log0, host.calls()@);
            }
            match answer {
                Ok(setting) => setting,
                Err(e) => {
                    return Err(e);
                },
            }
        },
    };
    let ghost log1 = host.calls()@;
    let content = match plan_paste(kind, text_content, file_path, setting) {
        Ok(content) => content,
        Err(e) => {
            proof {
                if kind == ClipboardItemKind::Image {
                    assert(since(log0, log1).skip(1) =~= Seq::<HostCall>::empty());
                }
            }
            return Err(e);
        },
    };
    let _held: PasteClipboard = match content {
        PasteContent::Text(text) => match write_text_for_paste(skip, now, text.as_str()) {
            Ok(clipboard) => clipboard,
            Err(e) => {
                return Err(e);
            },
        },
        PasteContent::ImageFile(path) => {
            let answer = host.read_file(path.as_str());
            proof {
                lemma_one_call_more(log0, log1, host.calls()@);
                if kind == ClipboardItemKind::Image {
                    assert(since(log0, host.calls()@).skip(1) =~= seq![host.calls()@.last()]);
                }
            }
            let png = match answer {
                Ok(bytes) => bytes,
                Err(e) => {
                    let mut reason = String::new();
                    push_str(&mut reason, "read image file: ");
                    push_str(&mut reason, e.as_str());
                    return Err(ClipboardError::PasteFailed { reason });
                },
            };
            let image = match prepare_image_paste(png.as_slice()) {
                Ok(image) => image,
                Err(e) => {
                    return Err(e);
                },
            };
            match write_image_for_paste(skip, now, image) {
                Ok(clipboard) => clipboard,
                Err(e) => {
                    return Err(e);
                },
            }
        },
    };
    let ghost log2 = host.calls()@;
    let r = finish_paste(host, platform, ax_trusted, id, target_app);
    proof {
        lemma_chain(log0, log2, host.calls()@);
        let t = since(log0, host.calls()@);
        let k = log2.len() - log0.len();
        assert(t.skip(k) =~= since(log2, host.calls()@));
        if kind == ClipboardItemKind::Image {
            assert(t.skip(1).skip(k - 1) =~= since(log2, host.calls()@));
        }
    }
    r
}

} // verus!
