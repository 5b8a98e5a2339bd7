//! Text shown by the application shell: tray menu labels and the
//! diagnostics blob reported when a plugin fails to start.
use vstd::prelude::*;

use crate::platform::Platform;
use crate::text::{push_str, str_eq};

verus! {

/// The modifier key named in tray labels: `Cmd` on macOS, `Ctrl` elsewhere.
pub open spec fn spec_hotkey_mod(platform: Platform) -> Seq<char> {
    if platform == Platform::MacOs {
        "Cmd"@
    } else {
        "Ctrl"@
    }
}

/// `"{action}\t{mod}+Shift+{key}"`.
pub open spec fn spec_tray_hotkey_label(action: Seq<char>, key: Seq<char>, platform: Platform) -> Seq<
    char,
> {
    action + "\t"@ + spec_hotkey_mod(platform) + "+Shift+"@ + key
}

/// A tray menu label: the action, a tab, then its chord.
pub fn tray_hotkey_label(action: &str, key: &str, platform: Platform) -> (r: String)
    ensures
        r@ == spec_tray_hotkey_label(action@, key@, platform),
{
    let mut s = String::new();
    push_str(&mut s, action);
    push_str(&mut s, "\t");
    if platform == Platform::MacOs {
        push_str(&mut s, "Cmd");
    } else {
        push_str(&mut s, "Ctrl");
    }
    push_str(&mut s, "+Shift+");
    push_str(&mut s, key);
    s
}

/// The markdown diagnostics reported for a plugin whose setup panicked.
pub open spec fn spec_diagnostics_markdown(plugin_name: Seq<char>, panic: Seq<char>) -> Seq<char> {
    "## Plugin setup panic\n- Plugin: `"@ + plugin_name + "`\n- Panic: `"@ + panic
        + "`\n\n## Action\n- Plugin `"@ + plugin_name
        + "` failed to start during app bootstrap.\n- Please file a bug and include this diagnostics blob."@
}

/// Markdown describing a plugin setup panic, for the bug report the user files.
pub fn diagnostics_markdown(plugin_name: &str, panic: &str) -> (r: String)
    ensures
        r@ == spec_diagnostics_markdown(plugin_name@, panic@),
{
    let mut s = String::new();
    push_str(&mut s, "## Plugin setup panic\n- Plugin: `");
    push_str(&mut s, plugin_name);
    push_str(&mut s, "`\n- Panic: `");
    push_str(&mut s, panic);
    push_str(&mut s, "`\n\n## Action\n- Plugin `");
    push_str(&mut s, plugin_name);
    push_str(
        &mut s,
        "` failed to start during app bootstrap.\n- Please file a bug and include this diagnostics blob.",
    );
    s
}

/// The file a crash dump taken at `timestamp` is written to.
pub fn crash_dump_file_name(timestamp: &str) -> (r: String)
    ensures
        r@ == "crash-"@ + timestamp@ + ".log"@,
{
    let mut s = String::new();
    push_str(&mut s, "crash-");
    push_str(&mut s, timestamp);
    push_str(&mut s, ".log");
    s
}

/// The text of a crash dump: a title, the UTC timestamp, app version and
/// OS, then the panic and the backtrace under their own headings.
pub open spec fn spec_crash_dump(
    timestamp: Seq<char>,
    version: Seq<char>,
    os: Seq<char>,
    arch: Seq<char>,
    panic: Seq<char>,
    backtrace: Seq<char>,
) -> Seq<char> {
    "# snapper-keeper crash dump\nTimestamp (UTC): "@ + timestamp + "\nApp version: "@ + version
        + "\nOS: "@ + os + " "@ + arch + "\n\n## Panic\n"@ + panic + "\n\n## Backtrace\n"@
        + backtrace + "\n"@
}

/// The contents written to a crash dump file.
pub fn crash_dump_contents(
    timestamp: &str,
    version: &str,
    os: &str,
    arch: &str,
    panic: &str,
    backtrace: &str,
) -> (r: String)
    ensures
        r@ == spec_crash_dump(timestamp@, version@, os@, arch@, panic@, backtrace@),
{
    let mut s = String::new();
    push_str(&mut s, "# snapper-keeper crash dump\nTimestamp (UTC): ");
    push_str(&mut s, timestamp);
    push_str(&mut s, "\nApp version: ");
    push_str(&mut s, version);
    push_str(&mut s, "\nOS: ");
    push_str(&mut s, os);
    push_str(&mut s, " ");
    push_str(&mut s, arch);
    push_str(&mut s, "\n\n## Panic\n");
    push_str(&mut s, panic);
    push_str(&mut s, "\n\n## Backtrace\n");
    push_str(&mut s, backtrace);
    push_str(&mut s, "\n");
    s
}

/// The tray icon artwork of each theme family.
#[derive(Debug, Clone, Copy, PartialEq, Eq, Structural)]
pub enum TrayIcon {
    Memphis,
    Robotic,
    Corporate,
    WabiSabi,
    Riso,
    Constructivist,
    Atomic,
    /// The default artwork, used for any other family.
    Holo,
}

/// The tray icon of a theme family; unknown families get the default.
pub open spec fn spec_tray_icon_for(family: Seq<char>) -> TrayIcon {
    if family == "memphis"@ {
        TrayIcon::Memphis
    } else if family == "robotic"@ {
        TrayIcon::Robotic
    } else if family == "corporate"@ {
        TrayIcon::Corporate
    } else if family == "wabi-sabi"@ {
        TrayIcon::WabiSabi
    } else if family == "riso"@ {
        TrayIcon::Riso
    } else if family == "constructivist"@ {
        TrayIcon::Constructivist
    } else if family == "atomic"@ {
        TrayIcon::Atomic
    } else {
        TrayIcon::Holo
    }
}

/// Which tray icon a theme family shows.
pub fn tray_icon_for(family: &str) -> (r: TrayIcon)
    ensures
        r == spec_tray_icon_for(family@),
{
    if str_eq(family, "memphis") {
        TrayIcon::Memphis
    } else if str_eq(family, "robotic") {
        TrayIcon::Robotic
    } else if str_eq(family, "corporate") {
        TrayIcon::Corporate
    } else if str_eq(family, "wabi-sabi") {
        TrayIcon::WabiSabi
    } else if str_eq(family, "riso") {
        TrayIcon::Riso
    } else if str_eq(family, "constructivist") {
        TrayIcon::Constructivist
    } else if str_eq(family, "atomic") {
        TrayIcon::Atomic
    } else {
        TrayIcon::Holo
    }
}

/// The message carried by a panic payload: its text when the payload is a
/// string (`&str` or `String`, handed over as `text`), else a fixed
/// placeholder.
pub fn panic_message(text: Option<&str>) -> (r: String)
    ensures
        r@ == match text {
            Some(t) => t@,
            None => "unknown panic payload"@,
        },
{
    let mut s = String::new();
    match text {
        Some(t) => push_str(&mut s, t),
        None => push_str(&mut s, "unknown panic payload"),
    }
    s
}

/// A plugin whose setup panics are caught and reported instead of aborting
/// application start-up.
pub struct SafeSetupPlugin<P> {
    pub inner: P,
}

/// Wraps `plugin` so that a panic in its setup is contained.
pub fn safe_setup<P>(plugin: P) -> (r: SafeSetupPlugin<P>)
    ensures
        r.inner == plugin,
{
    SafeSetupPlugin { inner: plugin }
}

} // verus!
