//! Hide the app's own windows around a screen grab so captured pixels do
//! not include the app's UI, then restore exactly the windows it hid.
use vstd::prelude::*;

verus! {

/// The per-window operations the guard needs.
pub trait WindowManager {
    /// (label, currently visible) for every window the app owns.
    fn list_own_windows(&self) -> Vec<(String, bool)>;

    fn hide_window(&self, label: &str);

    fn show(&self, label: &str);
}

/// `label` is one of `exclude`.
pub open spec fn is_excluded(exclude: Seq<&str>, label: Seq<char>) -> bool {
    exists|i: int| 0 <= i < exclude.len() && exclude[i]@ == label
}

/// The labels to hide: visible windows not excluded, in listing order.
pub open spec fn spec_labels_to_hide(windows: Seq<(String, bool)>, exclude: Seq<&str>) -> Seq<
    Seq<char>,
>
    decreases windows.len(),
{
    if windows.len() == 0 {
        Seq::empty()
    } else {
        let rest = spec_labels_to_hide(windows.drop_last(), exclude);
        let (label, visible) = windows.last();
        if visible && !is_excluded(exclude, label@) {
            rest.push(label@)
        } else {
            rest
        }
    }
}

/// Exactly the visible windows whose labels are not excluded are hidden:
/// a label is among the labels to hide if and only if some listed window
/// with that label is visible and the label is not in `exclude`.
pub proof fn lemma_hidden_are_visible_and_not_excluded(windows: Seq<(String, bool)>, exclude: Seq<&str>)
    ensures
        forall|l: Seq<char>|
            #[trigger] spec_labels_to_hide(windows, exclude).contains(l) <==> (!is_excluded(exclude, l)
                && exists|i: int| 0 <= i < windows.len() && windows[i].1 && windows[i].0@ == l),
    decreases windows.len(),
{
    if windows.len() > 0 {
        let prefix = windows.drop_last();
        lemma_hidden_are_visible_and_not_excluded(prefix, exclude);
        let rest = spec_labels_to_hide(prefix, exclude);
        let (label, visible) = windows.last();
        assert forall|l: Seq<char>|
            #[trigger] spec_labels_to_hide(windows, exclude).contains(l) <==> (!is_excluded(exclude, l)
                && exists|i: int| 0 <= i < windows.len() && windows[i].1 && windows[i].0@ == l) by {
            let n = windows.len() - 1;
            if spec_labels_to_hide(windows, exclude).contains(l) {
                if rest.contains(l) {
                    let i = choose|i: int| 0 <= i < prefix.len() && prefix[i].1 && prefix[i].0@ == l;
                    assert(windows[i] == prefix[i]);
                } else {
                    assert(visible && !is_excluded(exclude, label@));
                    assert(rest.push(label@).contains(l));
                    let j = choose|j: int| 0 <= j < rest.push(label@).len() && rest.push(label@)[j] == l;
                    assert(j == rest.len());
                    assert(windows[n] == windows.last());
                }
            }
            if !is_excluded(exclude, l) && exists|i: int| 0 <= i < windows.len() && windows[i].1
                && windows[i].0@ == l {
                let i = choose|i: int| 0 <= i < windows.len() && windows[i].1 && windows[i].0@ == l;
                if i < n {
                    assert(prefix[i] == windows[i]);
                    assert(rest.contains(l));
                    if visible && !is_excluded(exclude, label@) {
                        let k = choose|k: int| 0 <= k < rest.len() && rest[k] == l;
                        assert(rest.push(label@)[k] == l);
                    }
                } else {
                    assert(windows[i] == windows.last());
                    assert(rest.push(label@)[rest.len() as int] == l);
                }
            }
        }
    }
}

/// Whether `label` is one of `exclude`.
fn excluded(exclude: &[&str], label: &str) -> (r: bool)
    ensures
        r == is_excluded(exclude@, label@),
{
    let mut i: usize = 0;
    while i < exclude.len()
        invariant
            i <= exclude@.len(),
            forall|j: int| 0 <= j < i ==> exclude@[j]@ != label@,
        decreases exclude@.len() - i,
    {
        if crate::text::str_eq(exclude[i], label) {
            return true;
        }
        i = i + 1;
    }
    false
}

/// The labels of the windows to hide: each visible window whose label is
/// not in `exclude`, in listing order.
pub fn labels_to_hide(windows: &Vec<(String, bool)>, exclude: &[&str]) -> (r: Vec<String>)
    ensures
        r@.len() == spec_labels_to_hide(windows@, exclude@).len(),
        forall|k: int| 0 <= k < r@.len() ==> r@[k]@ == spec_labels_to_hide(windows@, exclude@)[k],
{
    let mut out: Vec<String> = Vec::new();
    let mut i: usize = 0;
    while i < windows.len()
        invariant
            i <= windows@.len(),
            out@.len() == spec_labels_to_hide(windows@.take(i as int), exclude@).len(),
            forall|k: int|
                0 <= k < out@.len() ==> out@[k]@ == spec_labels_to_hide(
                    windows@.take(i as int),
                    exclude@,
                )[k],
        decreases windows@.len() - i,
    {
        proof {
            let t = windows@.take(i + 1);
            assert(t.drop_last() == windows@.take(i as int));
            assert(t.last() == windows@[i as int]);
        }
        let (label, visible) = &windows[i];
        if *visible && !excluded(exclude, label.as_str()) {
            out.push(label.clone());
        }
        i = i + 1;
    }
    proof {
        assert(windows@.take(windows@.len() as int) == windows@);
    }
    out
}

/// Hides a set of windows and remembers them so that `restore` shows
/// exactly those again.
pub struct WindowVisibilityGuard<'a, W: WindowManager> {
    manager: &'a W,
    hidden_labels: Vec<String>,
}

impl<'a, W: WindowManager> WindowVisibilityGuard<'a, W> {
    /// The labels this guard hid, in the order it hid them.
    pub closed spec fn hidden(&self) -> Seq<Seq<char>> {
        self.hidden_labels@.map_values(|l: String| l@)
    }

    /// The window manager the guard hid the windows on, which `restore`
    /// shows them on again.
    pub closed spec fn manager(&self) -> W {
        *self.manager
    }

    /// Snapshot current visibility and hide every visible window whose
    /// label is not in `exclude_labels`; the guard restores them.
    pub fn hide_all(manager: &'a W, exclude_labels: &[&str]) -> (r: Self)
        ensures
            exists|listed: Seq<(String, bool)>| r.hidden() == spec_labels_to_hide(listed, exclude_labels@),
            r.manager() == *manager,
    {
        let listed = manager.list_own_windows();
        let hidden = labels_to_hide(&listed, exclude_labels);
        let mut i: usize = 0;
        while i < hidden.len()
            decreases hidden.len() - i,
        {
            manager.hide_window(hidden[i].as_str());
            i = i + 1;
        }
        let r = WindowVisibilityGuard { manager, hidden_labels: hidden };
        proof {
            assert(r.hidden() =~= spec_labels_to_hide(listed@, exclude_labels@));
        }
        r
    }

    /// The labels this guard hid.
    pub fn hidden_labels(&self) -> (r: &Vec<String>)
        ensures
            r@.map_values(|l: String| l@) == self.hidden(),
    {
        &self.hidden_labels
    }

    /// Show again every window this guard hid, in the order it hid them.
    pub fn restore(self) {
        let mut i: usize = 0;
        while i < self.hidden_labels.len()
            decreases self.hidden_labels.len() - i,
        {
            self.manager.show(self.hidden_labels[i].as_str());
            i = i + 1;
        }
    }
}

/// Delay between hiding the app's windows and grabbing pixels, in
/// milliseconds, so the compositor has repainted what lies beneath.
pub const HIDE_SETTLE_DELAY_MS: u64 = 150;

/// Whether to hide the app's windows around a grab: the stored setting
/// when it is a boolean, and yes when it is absent, unreadable or not a
/// boolean (`stored` is `None` then).
pub fn should_hide_own_windows(stored: Option<bool>) -> (r: bool)
    ensures
        r == match stored {
            Some(b) => b,
            None => true,
        },
{
    match stored {
        Some(b) => b,
        None => true,
    }
}

/// Runs `grab` with the app's own windows hidden when `hide` is set: every
/// visible window but the capture overlay is hidden, `settle` is given the
/// settling delay, `grab` runs, and the hidden windows are shown again.
/// When `hide` is not set, `grab` runs alone. Returns what `grab` returns.
pub fn with_hidden_own_windows<W: WindowManager, T, S: FnOnce(u64), F: FnOnce() -> T>(
    manager: &W,
    hide: bool,
    settle: S,
    grab: F,
) -> (r: T)
    requires
        settle.requires((HIDE_SETTLE_DELAY_MS,)),
        grab.requires(()),
    ensures
        grab.ensures((), r),
{
    if !hide {
        return grab();
    }
    let exclude: [&str; 1] = ["capture-overlay"];
    let guard = WindowVisibilityGuard::hide_all(manager, exclude.as_slice());
    settle(HIDE_SETTLE_DELAY_MS);
    let r = grab();
    guard.restore();
    r
}

} // verus!
