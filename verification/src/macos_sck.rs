//! Rules of the macOS ScreenCaptureKit backend: which running applications
//! are the app's own (and so excluded from captures and from the window
//! list), and how a requested display resolves.
use vstd::prelude::*;

use crate::capture_error::CaptureError;
use crate::grab::WindowInfo;
use crate::text::{ascii_lower, chars_of, contains_chars, contains_seq, decimal, lower_chars, push_decimal, push_str, str_eq};

verus! {

/// The app's own bundle identifier.
pub fn current_bundle_id() -> (r: &'static str)
    ensures
        r@ == "com.snapper-keeper.app"@,
{
    "com.snapper-keeper.app"
}

/// The name fragment that marks helper processes of the app.
pub open spec fn own_name_marker() -> Seq<char> {
    "snapper-keeper"@
}

/// An application belongs to the app itself when its bundle id is exactly
/// `own_bundle_id`, or when its name contains "snapper-keeper" ignoring
/// ASCII case (helper processes may report another bundle id).
pub open spec fn spec_should_exclude(
    bundle_id: Option<Seq<char>>,
    app_name: Seq<char>,
    own_bundle_id: Seq<char>,
) -> bool {
    ||| bundle_id == Some(own_bundle_id)
    ||| contains_seq(ascii_lower(app_name), own_name_marker())
}

/// Whether output of the given app is excluded from captures because it
/// belongs to the app itself.
pub fn should_exclude_own_content(bundle_id: Option<&str>, app_name: &str, own_bundle_id: &str) -> (r:
    bool)
    ensures
        r == spec_should_exclude(
            match bundle_id {
                Some(b) => Some(b@),
                None => None,
            },
            app_name@,
            own_bundle_id@,
        ),
{
    if let Some(id) = bundle_id {
        if str_eq(id, own_bundle_id) {
            return true;
        }
    }
    let name = chars_of(app_name);
    let lowered = lower_chars(&name);
    let marker = chars_of("snapper-keeper");
    contains_chars(&lowered, &marker)
}

/// Resolve a requested display: the enumeration index when in range, else
/// the first display whose id is `requested`.
pub fn resolve_requested_display_position(display_ids: &[u32], requested: u32) -> (r: Option<usize>)
    ensures
        r == match crate::xcap_adapter::spec_resolve_index_first(display_ids@, requested) {
            Some(i) => Some(i as usize),
            None => None::<usize>,
        },
{
    let r = crate::xcap_adapter::resolve_requested_monitor_position(display_ids, requested);
    proof {
        if requested >= display_ids@.len() {
            if exists|i: int| 0 <= i < display_ids@.len() && display_ids@[i] == requested {
                let c = choose|i: int|
                    0 <= i < display_ids@.len() && display_ids@[i] == requested && forall|j: int|
                        0 <= j < i ==> display_ids@[j] != requested;
                match r {
                    Some(p) => {
                        if c < p {
                        } else if p < c {
                        }
                        assert(c == p);
                    },
                    None => {
                        let w = choose|i: int| 0 <= i < display_ids@.len() && display_ids@[i] == requested;
                        assert(display_ids@[w] != requested);
                    },
                }
            }
        }
    }
    r
}

/// The display a monitor or region grab uses: none at all is `NoMonitors`,
/// and so is a request that resolves to no display.
pub fn select_display(display_ids: &[u32], requested: u32) -> (r: Result<usize, CaptureError>)
    ensures
        match crate::xcap_adapter::spec_resolve_index_first(display_ids@, requested) {
            Some(i) => r == Ok::<usize, CaptureError>(i as usize),
            None => r == Err::<usize, CaptureError>(CaptureError::NoMonitors),
        },
{
    match resolve_requested_display_position(display_ids, requested) {
        Some(p) => Ok(p),
        None => Err(CaptureError::NoMonitors),
    }
}

/// The monitor name given to a display grab: `display-` and the display id.
pub fn display_label(display_id: u32) -> (r: String)
    ensures
        r@ == "display-"@ + decimal(display_id as nat),
{
    let mut s = String::new();
    push_str(&mut s, "display-");
    push_decimal(&mut s, display_id as u64);
    s
}

/// What ScreenCaptureKit reports about one shareable window.
#[derive(Debug, Clone)]
pub struct ShareableWindow {
    pub id: u32,
    /// Bundle id and name of the owning application, when it has one.
    pub owner: Option<(String, String)>,
    pub title: String,
    pub on_screen: bool,
    /// The window frame has positive width and height.
    pub has_area: bool,
    /// Frame size rounded to whole points.
    pub width: u32,
    pub height: u32,
}

/// A shareable window is listed when it has an owning application that is
/// not the app itself, is on screen and has an area.
pub open spec fn sck_listed(w: ShareableWindow, own_bundle_id: Seq<char>) -> bool {
    match w.owner {
        Some((bundle_id, app_name)) => {
            &&& !spec_should_exclude(Some(bundle_id@), app_name@, own_bundle_id)
            &&& w.on_screen
            &&& w.has_area
        },
        None => false,
    }
}

/// The listing entry of a shareable window.
pub open spec fn sck_info(w: ShareableWindow) -> WindowInfo {
    let app_name = match w.owner {
        Some((_, name)) => name,
        None => w.title,
    };
    WindowInfo {
        id: w.id,
        app_name,
        title: w.title,
        width: w.width,
        height: w.height,
    }
}

/// The listed windows of `s`, in order.
pub open spec fn spec_sck_capturable(s: Seq<ShareableWindow>, own_bundle_id: Seq<char>) -> Seq<
    WindowInfo,
>
    decreases s.len(),
{
    if s.len() == 0 {
        Seq::empty()
    } else {
        let rest = spec_sck_capturable(s.drop_last(), own_bundle_id);
        if sck_listed(s.last(), own_bundle_id) {
            rest.push(sck_info(s.last()))
        } else {
            rest
        }
    }
}

/// The windows offered for capture on macOS: the app's own windows, windows
/// without an owning application, off-screen and empty windows are left out.
pub fn sck_capturable_windows(windows: Vec<ShareableWindow>, own_bundle_id: &str) -> (r: Vec<WindowInfo>)
    ensures
        r@ == spec_sck_capturable(windows@, own_bundle_id@),
{
    let mut out: Vec<WindowInfo> = Vec::new();
    let mut i: usize = 0;
    while i < windows.len()
        invariant
            i <= windows@.len(),
            out@ == spec_sck_capturable(windows@.take(i as int), own_bundle_id@),
        decreases windows@.len() - i,
    {
        let w = &windows[i];
        proof {
            let t = windows@.take(i + 1);
            assert(t.drop_last() == windows@.take(i as int));
            assert(t.last() == windows@[i as int]);
        }
        match &w.owner {
            Some((bundle_id, app_name)) => {
                if !should_exclude_own_content(Some(bundle_id.as_str()), app_name.as_str(), own_bundle_id)
                    && w.on_screen && w.has_area {
                    out.push(
                        WindowInfo {
                            id: w.id,
                            app_name: app_name.clone(),
                            title: w.title.clone(),
                            width: w.width,
                            height: w.height,
                        },
                    );
                }
            },
            None => {},
        }
        i = i + 1;
    }
    proof {
        assert(windows@.take(windows@.len() as int) == windows@);
    }
    out
}

/// Positions of the running applications that belong to the app itself;
/// each entry is a bundle id and an application name.
pub fn excluded_applications(apps: &Vec<(String, String)>, own_bundle_id: &str) -> (r: Vec<usize>)
    ensures
        forall|k: int| 0 <= k < r@.len() ==> r@[k] < apps@.len(),
        forall|k: int| 0 <= k < r@.len() ==> spec_should_exclude(
            Some(apps@[r@[k] as int].0@),
            apps@[r@[k] as int].1@,
            own_bundle_id@,
        ),
        forall|i: int|
            0 <= i < apps@.len() && spec_should_exclude(Some(apps@[i].0@), apps@[i].1@, own_bundle_id@)
                ==> r@.contains(i as usize),
        forall|k1: int, k2: int| 0 <= k1 < k2 < r@.len() ==> r@[k1] < r@[k2],
{
    let mut out: Vec<usize> = Vec::new();
    let mut i: usize = 0;
    while i < apps.len()
        invariant
            i <= apps@.len(),
            forall|k: int| 0 <= k < out@.len() ==> out@[k] < i,
            forall|k: int| 0 <= k < out@.len() ==> spec_should_exclude(
                Some(apps@[out@[k] as int].0@),
                apps@[out@[k] as int].1@,
                own_bundle_id@,
            ),
            forall|j: int|
                0 <= j < i && spec_should_exclude(Some(apps@[j].0@), apps@[j].1@, own_bundle_id@)
                    ==> out@.contains(j as usize),
            forall|k1: int, k2: int| 0 <= k1 < k2 < out@.len() ==> out@[k1] < out@[k2],
        decreases apps@.len() - i,
    {
        let (bundle_id, app_name) = &apps[i];
        if should_exclude_own_content(Some(bundle_id.as_str()), app_name.as_str(), own_bundle_id) {
            let ghost before = out@;
            out.push(i);
            proof {
                assert forall|j: int|
                    0 <= j < i + 1 && spec_should_exclude(
                        Some(apps@[j].0@),
                        apps@[j].1@,
                        own_bundle_id@,
                    ) implies out@.contains(j as usize) by {
                    if j < i {
                        let k = choose|k: int| 0 <= k < before.len() && before[k] == j as usize;
                        assert(out@[k] == j as usize);
                    } else {
                        assert(out@[out@.len() - 1] == j as usize);
                    }
                }
            }
        }
        i = i + 1;
    }
    out
}

} // verus!
