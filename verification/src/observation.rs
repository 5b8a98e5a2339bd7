//! Coherent pasteboard observations. The pasteboard's change count is an
//! ownership generation, not writer identity, and delayed content can
//! become readable without another change: each generation is processed
//! until it completes, failed or empty reads are retried with a bounded
//! backoff, and a read that straddles a generation change is discarded.
use vstd::prelude::*;

use crate::sensitivity::SensitivityProbe;
use crate::source_app::SourceApp;
use crate::watcher::{ClipboardEvent, SkipReason, StepResult, WatcherState};

verus! {

/// The pasteboard as the poller sees it. An implementation describes, by
/// the spec functions, what each read reports in its current state: the
/// change count, whether the content is flagged sensitive, the content and
/// the frontmost application. Reading the change count changes none of
/// these; reading the sensitivity changes neither the content nor the
/// application; reading the content leaves the application. Reading the
/// content may move the change count and the sensitivity, since the
/// pasteboard is live.
pub trait ObservationSource {
    /// The change count a read would report now.
    spec fn generation_now(&self) -> isize;

    /// Whether a read would report the content as sensitive now.
    spec fn sensitive_now(&self) -> bool;

    /// The content a read would report now.
    spec fn event_now(&self) -> Option<ClipboardEvent>;

    /// The frontmost application a read would report now.
    spec fn app_now(&self) -> Option<SourceApp>;

    fn generation(&mut self) -> (r: isize)
        ensures
            r == old(self).generation_now(),
            final(self).generation_now() == old(self).generation_now(),
            final(self).sensitive_now() == old(self).sensitive_now(),
            final(self).event_now() == old(self).event_now(),
            final(self).app_now() == old(self).app_now(),
    ;

    fn sensitive(&mut self) -> (r: bool)
        ensures
            r == old(self).sensitive_now(),
            final(self).event_now() == old(self).event_now(),
            final(self).app_now() == old(self).app_now(),
    ;

    fn event(&mut self) -> (r: Option<ClipboardEvent>)
        ensures
            r == old(self).event_now(),
            final(self).app_now() == old(self).app_now(),
    ;

    fn source_app(&mut self) -> (r: Option<SourceApp>)
        ensures
            r == old(self).app_now(),
    ;
}

/// First retry delay of a generation, in milliseconds.
pub const FIRST_RETRY_MS: u64 = 100;

/// Longest retry delay, in milliseconds.
pub const MAX_RETRY_MS: u64 = 1000;

/// Admission state: the change count followed, whether that change is
/// done, whether the worker's hash must still be reset for it, and when and
/// with what delay it may be retried (milliseconds).
pub struct GateView {
    pub current: Option<isize>,
    pub completed: bool,
    pub reset_hash: bool,
    pub retry_at: u64,
    pub delay: u64,
}

/// Admission state for a change count not followed before.
pub open spec fn fresh_gate(generation: Option<isize>) -> GateView {
    GateView { current: generation, completed: false, reset_hash: true, retry_at: 0, delay: FIRST_RETRY_MS }
}

/// Admission of `generation` at `now`: a different generation restarts the
/// gate; the generation is admitted when not completed and its retry time
/// has come.
pub open spec fn spec_admit(g: GateView, generation: isize, now: u64) -> (GateView, bool) {
    let g1 = if g.current != Some(generation) {
        fresh_gate(Some(generation))
    } else {
        g
    };
    (g1, !g1.completed && now >= g1.retry_at)
}

/// Scheduling a retry at `now`: after the current delay (saturating), and
/// the delay doubles up to one second.
pub open spec fn spec_retry(g: GateView, now: u64) -> GateView {
    let at = if now + g.delay > u64::MAX {
        u64::MAX
    } else {
        (now + g.delay) as u64
    };
    let d = if g.delay * 2 >= MAX_RETRY_MS {
        MAX_RETRY_MS
    } else {
        (g.delay * 2) as u64
    };
    GateView { retry_at: at, delay: d, ..g }
}

/// A processed result is retried when the content was empty or could not
/// be persisted; anything else completes the generation.
pub open spec fn needs_retry(r: StepResult) -> bool {
    r == StepResult::Skipped(SkipReason::EmptyContent) || r == StepResult::Skipped(
        SkipReason::PersistFailed,
    )
}

/// Per-generation admission and backoff.
pub struct GenerationGate {
    current: Option<isize>,
    completed: bool,
    reset_hash: bool,
    retry_at: u64,
    delay: u64,
}

impl Default for GenerationGate {
    fn default() -> (r: Self)
        ensures
            r@ == fresh_gate(None),
    {
        GenerationGate {
            current: None,
            completed: false,
            reset_hash: true,
            retry_at: 0,
            delay: FIRST_RETRY_MS,
        }
    }
}

impl View for GenerationGate {
    type V = GateView;

    closed spec fn view(&self) -> GateView {
        GateView {
            current: self.current,
            completed: self.completed,
            reset_hash: self.reset_hash,
            retry_at: self.retry_at,
            delay: self.delay,
        }
    }
}

impl GenerationGate {
    /// Whether `generation` may be processed at `now`. Equality alone
    /// decides whether it is new, so zero, wraparound and pasteboard resets
    /// need no ordering assumptions.
    pub fn admit_generation(&mut self, generation: isize, now: u64) -> (r: bool)
        ensures
            (final(self)@, r) == spec_admit(old(self)@, generation, now),
    {
        let same = match self.current {
            Some(c) => c == generation,
            None => false,
        };
        if !same {
            self.current = Some(generation);
            self.completed = false;
            self.reset_hash = true;
            self.retry_at = 0;
            self.delay = FIRST_RETRY_MS;
        }
        !self.completed && now >= self.retry_at
    }

    /// Schedule the next attempt of the current generation.
    pub fn retry(&mut self, now: u64)
        ensures
            final(self)@ == spec_retry(old(self)@, now),
    {
        self.retry_at = if now > u64::MAX - self.delay {
            u64::MAX
        } else {
            now + self.delay
        };
        self.delay = if self.delay >= MAX_RETRY_MS / 2 {
            MAX_RETRY_MS
        } else {
            self.delay * 2
        };
    }

    /// Mark the current generation done.
    fn complete(&mut self)
        ensures
            final(self)@ == (GateView { completed: true, ..old(self)@ }),
    {
        self.completed = true;
    }

    /// Note that the worker's hash was reset for this generation.
    fn hash_was_reset(&mut self)
        ensures
            final(self)@ == (GateView { reset_hash: false, ..old(self)@ }),
    {
        self.reset_hash = false;
    }

    /// Whether the worker's hash must still be reset for this generation.
    fn must_reset_hash(&self) -> (r: bool)
        ensures
            r == self@.reset_hash,
    {
        self.reset_hash
    }
}

/// The sensitivity answer read once, before the content, for a whole
/// observation.
#[derive(Debug, Clone, Copy)]
pub struct FrozenSensitivity(pub bool);

impl SensitivityProbe for FrozenSensitivity {
    open spec fn answer_of(&self) -> bool {
        self.0
    }

    fn is_sensitive(&self) -> (r: bool)
        ensures
            r == self.0,
    {
        self.0
    }
}

/// What one read of the pasteboard leads to, given the change count read
/// before (`before`) and after (`after`) the content was read. When the
/// count moved the read is torn: nothing is processed and admission stays
/// unchanged. When no content was readable, a retry is scheduled. Otherwise
/// the content is processed, together with whether the worker's last hash
/// must be cleared first (once per change count, which is noted).
pub fn observe(
    gate: &mut GenerationGate,
    before: isize,
    after: isize,
    event: Option<ClipboardEvent>,
    now: u64,
) -> (r: Option<(ClipboardEvent, bool)>)
    ensures
        before != after ==> r is None && final(gate)@ == old(gate)@,
        before == after && event is None ==> r is None && final(gate)@ == spec_retry(old(gate)@, now),
        before == after && event is Some ==> r == Some((event->0, old(gate)@.reset_hash))
            && final(gate)@ == (GateView { reset_hash: false, ..old(gate)@ }),
{
    if after != before {
        return None;
    }
    let event = match event {
        Some(e) => e,
        None => {
            gate.retry(now);
            return None;
        },
    };
    let reset = gate.must_reset_hash();
    gate.hash_was_reset();
    Some((event, reset))
}

/// Record the result of processing the current change count: empty content
/// or failed persistence schedules a retry, anything else completes it.
pub fn record_result(gate: &mut GenerationGate, result: &StepResult, now: u64)
    ensures
        needs_retry(*result) ==> final(gate)@ == spec_retry(old(gate)@, now),
        !needs_retry(*result) ==> final(gate)@ == (GateView { completed: true, ..old(gate)@ }),
{
    let retry = match result {
        StepResult::Skipped(SkipReason::EmptyContent) => true,
        StepResult::Skipped(SkipReason::PersistFailed) => true,
        _ => false,
    };
    if retry {
        gate.retry(now);
    } else {
        gate.complete();
    }
}

/// Observe the pasteboard once at `now` and hand a coherent event to
/// `process`.
///
/// Nothing is read for a generation that is not admitted. Sensitivity is
/// read before the content. When the generation changed while reading, the
/// observation is dropped with nothing consumed, reset or persisted. When no
/// content is readable yet, a retry is scheduled. The first processed
/// observation of a generation clears the worker's last hash. A result of
/// empty content or failed persistence schedules a retry; any other result
/// completes the generation.
pub fn poll_once<S, F>(
    source: &mut S,
    gate: &mut GenerationGate,
    state: &mut WatcherState,
    now: u64,
    process: F,
) -> (r: Option<StepResult>)
    where
        S: ObservationSource,
        F: FnOnce(ClipboardEvent, &mut WatcherState, &FrozenSensitivity, Option<SourceApp>) -> StepResult,
    requires
        forall|e: ClipboardEvent, st: &mut WatcherState, p: &FrozenSensitivity, a: Option<SourceApp>|
            process.requires((e, st, p, a)),
    ensures
        ({
            let before = old(source).generation_now();
            let (g1, admitted) = spec_admit(old(gate)@, before, now);
            let g2 = GateView { reset_hash: false, ..g1 };
            let event = old(source).event_now();
            let frozen = FrozenSensitivity(old(source).sensitive_now());
            let app = old(source).app_now();
            if !admitted || final(source).generation_now() != before {
                &&& r is None
                &&& final(gate)@ == g1
                &&& final(state).last_hash == old(state).last_hash
                &&& final(state).pending_image == old(state).pending_image
            } else if event is None {
                &&& r is None
                &&& final(gate)@ == spec_retry(g1, now)
                &&& final(state).last_hash == old(state).last_hash
                &&& final(state).pending_image == old(state).pending_image
            } else {
                &&& r matches Some(res) && exists|st: &mut WatcherState|
                    #![trigger process.ensures((event->0, st, &frozen, app), res)]
                    process.ensures((event->0, st, &frozen, app), res) && (*st).pending_image
                        == old(state).pending_image && (*st).last_hash == (if g1.reset_hash {
                        None
                    } else {
                        old(state).last_hash
                    })
                &&& r matches Some(res) && if needs_retry(res) {
                    final(gate)@ == spec_retry(g2, now)
                } else {
                    final(gate)@ == (GateView { completed: true, ..g2 })
                }
            }
        }),
{
    let before = source.generation();
    if !gate.admit_generation(before, now) {
        return None;
    }
    let ghost g1 = gate@;
    let sensitive = FrozenSensitivity(source.sensitive());
    let event = source.event();
    let app = source.source_app();
    let after = source.generation();
    let (event, reset) = match observe(gate, before, after, event, now) {
        Some(ready) => ready,
        None => return None,
    };
    if reset {
        state.last_hash = None;
    }
    let result = process(event, state, &sensitive, app);
    record_result(gate, &result, now);
    Some(result)
}

/// Reads the two kinds of clipboard payload.
pub trait PayloadReader {
    fn text(&mut self) -> Option<String>;

    fn image(&mut self) -> Option<ClipboardEvent>;
}

/// Text that is present and not empty.
pub fn nonempty_text(text: Option<String>) -> (r: Option<String>)
    ensures
        r == match text {
            Some(t) => if t@.len() > 0 {
                Some(t)
            } else {
                None::<String>
            },
            None => None::<String>,
        },
{
    match text {
        Some(t) => {
            if t.as_str().chars().next().is_some() {
                Some(t)
            } else {
                None
            }
        },
        None => None,
    }
}

/// An image payload that is present and has bytes; anything else is none.
pub fn nonempty_image(image: Option<ClipboardEvent>) -> (r: Option<ClipboardEvent>)
    ensures
        r == match image {
            Some(ClipboardEvent::Image { bytes, width, height }) => if bytes@.len() > 0 {
                Some(ClipboardEvent::Image { bytes, width, height })
            } else {
                None::<ClipboardEvent>
            },
            _ => None::<ClipboardEvent>,
        },
{
    match image {
        Some(ClipboardEvent::Image { bytes, width, height }) => {
            if bytes.len() > 0 {
                Some(ClipboardEvent::Image { bytes, width, height })
            } else {
                None
            }
        },
        _ => None,
    }
}

/// The payload chosen from what the clipboard reader yielded: the text
/// when it is non-empty, else the image when it has bytes, else nothing.
pub open spec fn spec_payload(text: Option<String>, image: Option<ClipboardEvent>) -> Option<ClipboardEvent> {
    match text {
        Some(t) if t@.len() > 0 => Some(ClipboardEvent::Text(t)),
        _ => match image {
            Some(ClipboardEvent::Image { bytes, width, height }) if bytes@.len() > 0 => Some(
                ClipboardEvent::Image { bytes, width, height },
            ),
            _ => None,
        },
    }
}

/// The payload of a clipboard read: non-empty text first, else a non-empty
/// image.
pub fn payload_from(text: Option<String>, image: Option<ClipboardEvent>) -> (r: Option<ClipboardEvent>)
    ensures
        r == spec_payload(text, image),
{
    match nonempty_text(text) {
        Some(t) => Some(ClipboardEvent::Text(t)),
        None => nonempty_image(image),
    }
}

/// The payload of the clipboard: non-empty text when there is some, else a
/// non-empty image (read only when the text is missing or empty), as
/// `payload_from` chooses. What the reader yields is up to its
/// implementation.
pub fn read_payload<R: PayloadReader>(reader: &mut R) -> (r: Option<ClipboardEvent>)
    ensures
        match r {
            Some(ClipboardEvent::Text(t)) => t@.len() > 0,
            Some(ClipboardEvent::Image { bytes, .. }) => bytes@.len() > 0,
            None => true,
        },
{
    match nonempty_text(reader.text()) {
        Some(text) => payload_from(Some(text), None),
        None => payload_from(None, reader.image()),
    }
}

/// The payload the polling watcher takes: the clipboard's text when there
/// is any text (none at all when that text is empty), otherwise a non-empty
/// image. What the reader yields is up to its implementation.
pub fn poll_event<R: PayloadReader>(reader: &mut R) -> (r: Option<ClipboardEvent>)
    ensures
        match r {
            Some(ClipboardEvent::Text(t)) => t@.len() > 0,
            Some(ClipboardEvent::Image { bytes, .. }) => bytes@.len() > 0,
            None => true,
        },
{
    match reader.text() {
        Some(text) => match nonempty_text(Some(text)) {
            Some(t) => Some(ClipboardEvent::Text(t)),
            None => None,
        },
        None => payload_from(None, reader.image()),
    }
}

/// A generation that completed is never admitted again until the
/// generation changes, whatever the time.
pub proof fn lemma_completed_stays_completed(g: GateView, generation: isize, now: u64)
    requires
        g.current == Some(generation),
        g.completed,
    ensures
        !spec_admit(g, generation, now).1,
        spec_admit(g, generation, now).0 == g,
{
}

/// A new generation is admitted at once, whatever backoff the previous one
/// had reached.
pub proof fn lemma_new_generation_preempts_backoff(g: GateView, generation: isize, now: u64)
    requires
        g.current != Some(generation),
    ensures
        spec_admit(g, generation, now).1,
        spec_admit(g, generation, now).0 == fresh_gate(Some(generation)),
{
}

/// The retry delay stays within one second and the next attempt is at
/// most one second away.
pub proof fn lemma_backoff_bounded(g: GateView, now: u64)
    requires
        g.delay <= MAX_RETRY_MS,
    ensures
        spec_retry(g, now).delay <= MAX_RETRY_MS,
        spec_retry(g, now).retry_at <= now + MAX_RETRY_MS,
        spec_retry(g, now).retry_at >= now,
{
}

/// A generation that keeps failing is retried indefinitely: once its retry
/// time comes it is admitted again.
pub proof fn lemma_failed_generation_readmitted(g: GateView, generation: isize, t: u64, now: u64)
    requires
        g.current == Some(generation),
        !g.completed,
        now >= spec_retry(g, t).retry_at,
    ensures
        spec_admit(spec_retry(g, t), generation, now).1,
{
}

} // verus!
