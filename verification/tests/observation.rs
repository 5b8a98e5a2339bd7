use snapper_keeper::observation::{
    nonempty_image, nonempty_text, observe, payload_from, record_result,
    poll_event, poll_once, read_payload, FrozenSensitivity, GenerationGate, ObservationSource,
    PayloadReader,
};
use snapper_keeper::source_app::SourceApp;
use snapper_keeper::watcher::{ClipboardEvent, SkipReason, StepResult, WatcherState};

struct FakeSource {
    generation: isize,
    after: Option<isize>,
    pending: bool,
    sensitive: bool,
    reads: usize,
    probes: usize,
    apps: usize,
    image: bool,
    text: String,
}

impl Default for FakeSource {
    fn default() -> Self {
        Self {
            generation: 0,
            after: None,
            pending: false,
            sensitive: false,
            reads: 0,
            probes: 0,
            apps: 0,
            image: false,
            text: "generation-fixture".into(),
        }
    }
}

impl ObservationSource for FakeSource {
    fn generation_now(&self) -> isize {
        self.generation
    }

    fn sensitive_now(&self) -> bool {
        self.sensitive
    }

    fn event_now(&self) -> Option<ClipboardEvent> {
        if self.pending {
            None
        } else if self.image {
            Some(ClipboardEvent::Image { bytes: vec![0; 1024 * 1024 * 4], width: 1024, height: 1024 })
        } else {
            Some(ClipboardEvent::Text(self.text.clone()))
        }
    }

    fn app_now(&self) -> Option<SourceApp> {
        None
    }

    fn generation(&mut self) -> isize {
        self.generation
    }

    fn sensitive(&mut self) -> bool {
        self.probes += 1;
        self.sensitive
    }

    fn event(&mut self) -> Option<ClipboardEvent> {
        self.reads += 1;
        if let Some(after) = self.after.take() {
            self.generation = after;
        }
        if self.pending {
            None
        } else if self.image {
            Some(ClipboardEvent::Image { bytes: vec![0; 1024 * 1024 * 4], width: 1024, height: 1024 })
        } else {
            Some(ClipboardEvent::Text(self.text.clone()))
        }
    }

    fn source_app(&mut self) -> Option<SourceApp> {
        self.apps += 1;
        None
    }
}

fn saved(
    _: ClipboardEvent,
    _: &mut WatcherState,
    _: &FrozenSensitivity,
    _: Option<SourceApp>,
) -> StepResult {
    StepResult::Saved { item_id: "saved".into() }
}

#[test]
fn large_image_completed_generation_does_no_payload_privacy_source_or_database_work() {
    let mut source = FakeSource { image: true, ..Default::default() };
    let mut gate = GenerationGate::default();
    let mut state = WatcherState::new();
    assert!(poll_once(&mut source, &mut gate, &mut state, 0, saved).is_some());
    for time in 1..=100u64 {
        assert!(poll_once(&mut source, &mut gate, &mut state, time * 100, |_, _, _, _| {
            panic!("database processing repeated")
        })
        .is_none());
    }
    assert_eq!((source.reads, source.probes, source.apps), (1, 1, 1));
}

#[test]
fn zero_lower_wrap_and_new_generation_preempt_backoff() {
    let mut source = FakeSource::default();
    let mut gate = GenerationGate::default();
    let mut state = WatcherState::new();
    for generation in [0, 20, 3, isize::MAX, isize::MIN, 0] {
        source.generation = generation;
        state.last_hash = Some("previous".into());
        assert!(poll_once(&mut source, &mut gate, &mut state, 0, |_, state, _, _| {
            assert_eq!(state.last_hash, None);
            StepResult::Skipped(SkipReason::PersistFailed)
        })
        .is_some());
    }
    assert_eq!(source.reads, 6);
}

#[test]
fn pending_and_failed_generation_retry_indefinitely_with_bounded_backoff() {
    let mut source = FakeSource { pending: true, ..Default::default() };
    let mut gate = GenerationGate::default();
    let mut state = WatcherState::new();
    assert!(poll_once(&mut source, &mut gate, &mut state, 0, saved).is_none());
    assert!(poll_once(&mut source, &mut gate, &mut state, 99, saved).is_none());
    assert_eq!(source.reads, 1);
    source.pending = false;
    let failure = |_, _: &mut WatcherState, _: &FrozenSensitivity, _: Option<SourceApp>| {
        StepResult::Skipped(SkipReason::PersistFailed)
    };
    assert_eq!(
        poll_once(&mut source, &mut gate, &mut state, 100, failure),
        Some(StepResult::Skipped(SkipReason::PersistFailed))
    );
    assert!(poll_once(&mut source, &mut gate, &mut state, 299, saved).is_none());
    assert_eq!(source.reads, 2);
    for time in [300u64, 700, 1500, 2500, 3500, 4500, 5500, 6500, 7500, 8500, 9500, 10500] {
        assert!(poll_once(&mut source, &mut gate, &mut state, time, failure).is_some());
        assert!(poll_once(&mut source, &mut gate, &mut state, time + 1, saved).is_none());
    }
    assert!(poll_once(&mut source, &mut gate, &mut state, 11500, saved).is_some());
}

#[test]
fn failed_retry_does_not_reset_worker_hash_again() {
    let mut source = FakeSource::default();
    let mut gate = GenerationGate::default();
    let mut state = WatcherState::new();
    poll_once(&mut source, &mut gate, &mut state, 0, |_, state, _, _| {
        state.last_hash = Some("sentinel".into());
        StepResult::Skipped(SkipReason::PersistFailed)
    });
    poll_once(&mut source, &mut gate, &mut state, 100, |_, state, _, _| {
        assert_eq!(state.last_hash.as_deref(), Some("sentinel"));
        saved(ClipboardEvent::Text(String::new()), state, &FrozenSensitivity(false), None)
    });
}

#[test]
fn torn_snapshot_does_not_consume_own_write_or_mutate_hash_or_persist() {
    let mut source = FakeSource {
        after: Some(1),
        text: "torn-own-write-fixture".into(),
        ..Default::default()
    };
    let mut gate = GenerationGate::default();
    let mut state = WatcherState::new();
    state.last_hash = Some("previous-state".into());
    assert!(poll_once(&mut source, &mut gate, &mut state, 0, |_, _, _, _| {
        panic!("torn event reached worker")
    })
    .is_none());
    assert_eq!(state.last_hash.as_deref(), Some("previous-state"));
    assert!(poll_once(&mut source, &mut gate, &mut state, 1, saved).is_some());
}

#[test]
fn sensitivity_is_read_once_before_the_payload() {
    let mut source = FakeSource { sensitive: true, ..Default::default() };
    let mut gate = GenerationGate::default();
    let mut state = WatcherState::new();
    let mut seen = None;
    poll_once(&mut source, &mut gate, &mut state, 0, |_, _, probe, _| {
        seen = Some(probe.0);
        StepResult::Skipped(SkipReason::SensitiveFlag)
    });
    assert_eq!(seen, Some(true));
    assert_eq!((source.probes, source.reads), (1, 1));
}

struct Reader {
    text: Option<String>,
    image_reads: usize,
}

impl PayloadReader for Reader {
    fn text(&mut self) -> Option<String> {
        self.text.take()
    }

    fn image(&mut self) -> Option<ClipboardEvent> {
        self.image_reads += 1;
        Some(ClipboardEvent::Image { bytes: vec![255; 4], width: 1, height: 1 })
    }
}

#[test]
fn payload_prefers_nonempty_text_and_falls_back_to_image_for_empty_or_unreadable_text() {
    let mut reader = Reader { text: Some("text".into()), image_reads: 0 };
    assert!(matches!(read_payload(&mut reader), Some(ClipboardEvent::Text(text)) if text == "text"));
    assert_eq!(reader.image_reads, 0);
    for text in [Some(String::new()), None] {
        reader.text = text;
        assert!(matches!(read_payload(&mut reader), Some(ClipboardEvent::Image { .. })));
    }
    assert_eq!(reader.image_reads, 2);
}

#[test]
fn polled_empty_text_is_not_an_event() {
    let mut reader = Reader { text: Some(String::new()), image_reads: 0 };
    assert!(poll_event(&mut reader).is_none());
    assert_eq!(reader.image_reads, 0);
    reader.text = None;
    assert!(matches!(poll_event(&mut reader), Some(ClipboardEvent::Image { .. })));
    reader.text = Some("x".into());
    assert!(matches!(poll_event(&mut reader), Some(ClipboardEvent::Text(t)) if t == "x"));
}

#[test]
fn payload_filters_keep_only_content() {
    assert_eq!(nonempty_text(Some("a".into())), Some("a".to_string()));
    assert_eq!(nonempty_text(Some(String::new())), None);
    assert_eq!(nonempty_text(None), None);
    assert!(matches!(
        nonempty_image(Some(ClipboardEvent::Image { bytes: vec![1], width: 1, height: 1 })),
        Some(ClipboardEvent::Image { .. })
    ));
    assert!(nonempty_image(Some(ClipboardEvent::Image { bytes: vec![], width: 0, height: 0 })).is_none());
    assert!(nonempty_image(Some(ClipboardEvent::Text("t".into()))).is_none());
    assert!(nonempty_image(None).is_none());
}

#[test]
fn observation_steps_follow_the_reads() {
    let mut gate = GenerationGate::default();
    assert!(gate.admit_generation(4, 0));
    let text = || Some(ClipboardEvent::Text("t".into()));
    assert!(observe(&mut gate, 4, 5, text(), 0).is_none());
    assert!(observe(&mut gate, 4, 4, None, 0).is_none());
    assert!(!gate.admit_generation(4, 99));
    assert!(gate.admit_generation(4, 100));
    let (event, reset) = observe(&mut gate, 4, 4, text(), 100).unwrap();
    assert!(matches!(event, ClipboardEvent::Text(t) if t == "t"));
    assert!(reset);
    let (_, reset_again) = observe(&mut gate, 4, 4, text(), 100).unwrap();
    assert!(!reset_again);
    record_result(&mut gate, &StepResult::Saved { item_id: "x".into() }, 100);
    assert!(!gate.admit_generation(4, 10_000));
}

#[test]
fn payload_prefers_text_over_image() {
    let image = || Some(ClipboardEvent::Image { bytes: vec![7], width: 1, height: 1 });
    assert!(matches!(payload_from(Some("a".into()), image()), Some(ClipboardEvent::Text(t)) if t == "a"));
    assert!(matches!(payload_from(Some(String::new()), image()), Some(ClipboardEvent::Image { .. })));
    assert!(matches!(payload_from(None, image()), Some(ClipboardEvent::Image { .. })));
    assert!(payload_from(None, None).is_none());
}
