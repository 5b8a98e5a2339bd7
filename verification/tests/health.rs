use std::cell::RefCell;

use snapper_keeper::health::{
    next_backoff, ClipboardHealth, ClipboardStatus, HealthSink, BACKOFF_CAP_MS, INITIAL_BACKOFF_MS,
};

#[test]
fn default_status_is_optimistically_available() {
    let s = ClipboardStatus::default();
    assert!(s.available);
    assert!(s.last_error.is_none());
}

#[test]
fn next_backoff_doubles_then_caps_at_60s() {
    let mut d = INITIAL_BACKOFF_MS;
    assert_eq!(d, 500);
    d = next_backoff(d);
    assert_eq!(d, 1000);
    d = next_backoff(d);
    assert_eq!(d, 2000);
    for _ in 0..10 {
        d = next_backoff(d);
    }
    assert_eq!(d, BACKOFF_CAP_MS, "must saturate at 60s");
    assert_eq!(next_backoff(d), BACKOFF_CAP_MS, "stays at the cap");
}

#[test]
fn next_backoff_saturates_instead_of_overflowing() {
    assert_eq!(next_backoff(u64::MAX), BACKOFF_CAP_MS);
    assert_eq!(next_backoff(29_999), 59_998);
    assert_eq!(next_backoff(30_000), BACKOFF_CAP_MS);
    assert_eq!(next_backoff(0), 0);
}

#[test]
fn mark_unavailable_then_available_round_trips_through_snapshot() {
    let mut health = ClipboardHealth::new();
    assert!(health.snapshot().available, "starts available");

    let s = health.mark_unavailable("no display".into());
    assert_eq!(s, health.snapshot());
    assert!(!health.snapshot().available);
    assert_eq!(health.snapshot().last_error.as_deref(), Some("no display"));

    health.mark_available();
    assert!(health.snapshot().available);
    assert!(health.snapshot().last_error.is_none(), "recovery clears the error");
}

struct StateOnlySink(RefCell<ClipboardHealth>);

impl HealthSink for StateOnlySink {
    fn report_available(&self) {
        self.0.borrow_mut().mark_available();
    }

    fn report_unavailable(&self, error: String) {
        self.0.borrow_mut().mark_unavailable(error);
    }
}

#[test]
fn sink_drives_shared_health_state() {
    let sink = StateOnlySink(RefCell::new(ClipboardHealth::new()));
    sink.report_unavailable("boom".into());
    assert!(!sink.0.borrow().snapshot().available);
    sink.report_available();
    assert!(sink.0.borrow().snapshot().available);
}
