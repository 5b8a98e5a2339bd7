//! Clipboard watcher health: the status the `clipboard_status` command
//! reports, the transitions the watcher drives, and the retry backoff used
//! while the OS clipboard cannot be opened.
use vstd::prelude::*;

verus! {

/// Current health of the clipboard watcher.
#[derive(Debug, Clone, PartialEq, Eq)]
pub struct ClipboardStatus {
    pub available: bool,
    pub last_error: Option<String>,
}

/// The optimistic status reported before the watcher's first open attempt.
pub open spec fn spec_default_status(s: ClipboardStatus) -> bool {
    s.available && s.last_error is None
}

impl Default for ClipboardStatus {
    fn default() -> (s: Self)
        ensures
            spec_default_status(s),
    {
        ClipboardStatus { available: true, last_error: None }
    }
}

/// A copy of an optional error message.
fn clone_error(e: &Option<String>) -> (r: Option<String>)
    ensures
        r == *e,
{
    match e {
        Some(m) => Some(m.clone()),
        None => None,
    }
}

impl ClipboardStatus {
    /// A copy of this status.
    pub fn duplicate(&self) -> (r: ClipboardStatus)
        ensures
            r == *self,
    {
        ClipboardStatus { available: self.available, last_error: clone_error(&self.last_error) }
    }
}

/// The clipboard watcher's health: the sink records transitions through
/// `&mut` methods, and a snapshot reads the status they left. It is one
/// owned value; a host that reads it from another thread keeps it behind
/// its own lock.
pub struct ClipboardHealth {
    status: ClipboardStatus,
}

impl ClipboardHealth {
    /// The status a snapshot would report now.
    pub closed spec fn current(&self) -> ClipboardStatus {
        self.status
    }

    /// Fresh health state, optimistically available.
    pub fn new() -> (h: Self)
        ensures
            spec_default_status(h.current()),
    {
        ClipboardHealth { status: ClipboardStatus::default() }
    }

    /// The current status.
    pub fn snapshot(&self) -> (s: ClipboardStatus)
        ensures
            s == self.current(),
    {
        self.status.duplicate()
    }

    /// Record that the clipboard opened; clears any previous error.
    pub fn mark_available(&mut self) -> (s: ClipboardStatus)
        ensures
            s.available,
            s.last_error is None,
            final(self).current() == s,
    {
        self.status = ClipboardStatus { available: true, last_error: None };
        self.status.duplicate()
    }

    /// Record that opening the clipboard failed with `error`.
    pub fn mark_unavailable(&mut self, error: String) -> (s: ClipboardStatus)
        ensures
            !s.available,
            s.last_error == Some(error),
            final(self).current() == s,
    {
        self.status = ClipboardStatus { available: false, last_error: Some(error) };
        self.status.duplicate()
    }
}

/// Receives clipboard availability transitions.
pub trait HealthSink {
    fn report_available(&self);

    fn report_unavailable(&self, error: String);
}

/// Initial retry delay in milliseconds.
pub const INITIAL_BACKOFF_MS: u64 = 500;

/// Longest retry delay in milliseconds (one minute).
pub const BACKOFF_CAP_MS: u64 = 60_000;

/// The delay after `prev_ms`: doubled, saturating, capped at one minute.
pub open spec fn spec_next_backoff(prev_ms: u64) -> u64 {
    if prev_ms * 2 >= BACKOFF_CAP_MS {
        BACKOFF_CAP_MS
    } else {
        (prev_ms * 2) as u64
    }
}

/// Exponential backoff capped at 60s: 500ms, 1s, 2s, ..., 32s, 60s, 60s, ...
pub fn next_backoff(prev_ms: u64) -> (r: u64)
    ensures
        r == spec_next_backoff(prev_ms),
{
    if prev_ms >= BACKOFF_CAP_MS / 2 {
        BACKOFF_CAP_MS
    } else {
        prev_ms * 2
    }
}

/// The backoff never exceeds the cap and never shrinks below the cap once
/// there; below the cap it at least doubles.
pub proof fn lemma_backoff_bounded(prev_ms: u64)
    ensures
        spec_next_backoff(prev_ms) <= BACKOFF_CAP_MS,
        prev_ms <= BACKOFF_CAP_MS ==> prev_ms <= spec_next_backoff(prev_ms),
        prev_ms * 2 < BACKOFF_CAP_MS ==> spec_next_backoff(prev_ms) == 2 * prev_ms,
{
}

} // verus!
