//! Global hotkey actions: the event each one emits and its default chord.
use vstd::prelude::*;

use crate::platform::Platform;

verus! {

/// An action bound to a global hotkey.
#[derive(Debug, Clone, Copy, PartialEq, Eq, Structural)]
pub enum HotkeyAction {
    CaptureFullScreen,
    CaptureRegion,
    CaptureWindow,
    CaptureTimedFullScreen,
    ClipboardHistory,
}

/// The event name emitted when `action` fires.
pub open spec fn spec_event_name(action: HotkeyAction) -> Seq<char> {
    match action {
        HotkeyAction::CaptureFullScreen => "hotkey:capture-full-screen"@,
        HotkeyAction::CaptureRegion => "hotkey:capture-region"@,
        HotkeyAction::CaptureWindow => "hotkey:capture-window"@,
        HotkeyAction::CaptureTimedFullScreen => "hotkey:capture-timed"@,
        HotkeyAction::ClipboardHistory => "hotkey:clipboard-history"@,
    }
}

/// The default chord of `action` on `platform`: `Cmd` on macOS, `CmdOrCtrl`
/// elsewhere, then `Shift` and the action's key.
pub open spec fn spec_default_chord(action: HotkeyAction, platform: Platform) -> Seq<char> {
    if platform == Platform::MacOs {
        match action {
            HotkeyAction::CaptureFullScreen => "Cmd+Shift+3"@,
            HotkeyAction::CaptureRegion => "Cmd+Shift+4"@,
            HotkeyAction::CaptureWindow => "Cmd+Shift+5"@,
            HotkeyAction::CaptureTimedFullScreen => "Cmd+Shift+6"@,
            HotkeyAction::ClipboardHistory => "Cmd+Shift+V"@,
        }
    } else {
        match action {
            HotkeyAction::CaptureFullScreen => "CmdOrCtrl+Shift+3"@,
            HotkeyAction::CaptureRegion => "CmdOrCtrl+Shift+4"@,
            HotkeyAction::CaptureWindow => "CmdOrCtrl+Shift+5"@,
            HotkeyAction::CaptureTimedFullScreen => "CmdOrCtrl+Shift+6"@,
            HotkeyAction::ClipboardHistory => "CmdOrCtrl+Shift+V"@,
        }
    }
}

impl HotkeyAction {
    /// The event name emitted when this action fires.
    pub fn event_name(self) -> (r: &'static str)
        ensures
            r@ == spec_event_name(self),
    {
        match self {
            HotkeyAction::CaptureFullScreen => "hotkey:capture-full-screen",
            HotkeyAction::CaptureRegion => "hotkey:capture-region",
            HotkeyAction::CaptureWindow => "hotkey:capture-window",
            HotkeyAction::CaptureTimedFullScreen => "hotkey:capture-timed",
            HotkeyAction::ClipboardHistory => "hotkey:clipboard-history",
        }
    }

    /// The chord this action is registered under by default on `platform`.
    pub fn default_chord(self, platform: Platform) -> (r: &'static str)
        ensures
            r@ == spec_default_chord(self, platform),
            r@ == chord_modifiers(platform) + seq![chord_key(r@)],
            self == HotkeyAction::CaptureFullScreen ==> chord_key(r@) == '3',
            self == HotkeyAction::CaptureRegion ==> chord_key(r@) == '4',
            self == HotkeyAction::CaptureWindow ==> chord_key(r@) == '5',
            self == HotkeyAction::CaptureTimedFullScreen ==> chord_key(r@) == '6',
            self == HotkeyAction::ClipboardHistory ==> chord_key(r@) == 'V',
    {
        proof {
            lemma_chord_keys(self, platform);
        }
        if platform == Platform::MacOs {
            match self {
                HotkeyAction::CaptureFullScreen => "Cmd+Shift+3",
                HotkeyAction::CaptureRegion => "Cmd+Shift+4",
                HotkeyAction::CaptureWindow => "Cmd+Shift+5",
                HotkeyAction::CaptureTimedFullScreen => "Cmd+Shift+6",
                HotkeyAction::ClipboardHistory => "Cmd+Shift+V",
            }
        } else {
            match self {
                HotkeyAction::CaptureFullScreen => "CmdOrCtrl+Shift+3",
                HotkeyAction::CaptureRegion => "CmdOrCtrl+Shift+4",
                HotkeyAction::CaptureWindow => "CmdOrCtrl+Shift+5",
                HotkeyAction::CaptureTimedFullScreen => "CmdOrCtrl+Shift+6",
                HotkeyAction::ClipboardHistory => "CmdOrCtrl+Shift+V",
            }
        }
    }
}

/// Every action, in registration order.
pub fn all_actions() -> (r: Vec<HotkeyAction>)
    ensures
        r@ == seq![
            HotkeyAction::CaptureFullScreen,
            HotkeyAction::CaptureRegion,
            HotkeyAction::CaptureWindow,
            HotkeyAction::CaptureTimedFullScreen,
            HotkeyAction::ClipboardHistory,
        ],
{
    let mut r = Vec::new();
    r.push(HotkeyAction::CaptureFullScreen);
    r.push(HotkeyAction::CaptureRegion);
    r.push(HotkeyAction::CaptureWindow);
    r.push(HotkeyAction::CaptureTimedFullScreen);
    r.push(HotkeyAction::ClipboardHistory);
    r
}

/// The modifiers every default chord starts with: `Cmd+Shift+` on macOS,
/// `CmdOrCtrl+Shift+` elsewhere.
pub open spec fn chord_modifiers(platform: Platform) -> Seq<char> {
    if platform == Platform::MacOs {
        "Cmd+Shift+"@
    } else {
        "CmdOrCtrl+Shift+"@
    }
}

/// The key a chord ends with.
pub open spec fn chord_key(chord: Seq<char>) -> char {
    chord.last()
}

/// The keys the tray shows: on every platform full-screen capture is on
/// `3`, region capture on `4`, window capture on `5`, timed capture on `6`
/// and clipboard history on `V`, each after the platform's modifiers.
pub proof fn lemma_chord_keys(action: HotkeyAction, platform: Platform)
    ensures
        spec_default_chord(action, platform) == chord_modifiers(platform) + seq![
            chord_key(spec_default_chord(action, platform)),
        ],
        action == HotkeyAction::CaptureFullScreen ==> chord_key(spec_default_chord(action, platform)) == '3',
        action == HotkeyAction::CaptureRegion ==> chord_key(spec_default_chord(action, platform)) == '4',
        action == HotkeyAction::CaptureWindow ==> chord_key(spec_default_chord(action, platform)) == '5',
        action == HotkeyAction::CaptureTimedFullScreen ==> chord_key(spec_default_chord(action, platform))
            == '6',
        action == HotkeyAction::ClipboardHistory ==> chord_key(spec_default_chord(action, platform)) == 'V',
{
    reveal_strlit("Cmd+Shift+");
    reveal_strlit("CmdOrCtrl+Shift+");
    reveal_strlit("Cmd+Shift+3");
    reveal_strlit("Cmd+Shift+4");
    reveal_strlit("Cmd+Shift+5");
    reveal_strlit("Cmd+Shift+6");
    reveal_strlit("Cmd+Shift+V");
    reveal_strlit("CmdOrCtrl+Shift+3");
    reveal_strlit("CmdOrCtrl+Shift+4");
    reveal_strlit("CmdOrCtrl+Shift+5");
    reveal_strlit("CmdOrCtrl+Shift+6");
    reveal_strlit("CmdOrCtrl+Shift+V");
    let c = spec_default_chord(action, platform);
    assert(c =~= chord_modifiers(platform) + seq![c.last()]);
}

/// Distinct actions emit distinct events.
pub proof fn lemma_event_names_distinct(a: HotkeyAction, b: HotkeyAction)
    requires
        a != b,
    ensures
        spec_event_name(a) != spec_event_name(b),
{
    reveal_strlit("hotkey:capture-full-screen");
    reveal_strlit("hotkey:capture-region");
    reveal_strlit("hotkey:capture-window");
    reveal_strlit("hotkey:capture-timed");
    reveal_strlit("hotkey:clipboard-history");
    assert("hotkey:capture-full-screen"@[15] == 'f');
    assert("hotkey:capture-region"@[15] == 'r');
    assert("hotkey:capture-window"@[15] == 'w');
    assert("hotkey:capture-timed"@[15] == 't');
    assert("hotkey:clipboard-history"@[7] == 'c');
    assert("hotkey:clipboard-history"@[8] == 'l');
    assert("hotkey:capture-timed"@[8] == 'a');
}

} // verus!
