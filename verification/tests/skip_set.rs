use snapper_keeper::digest::hash_content;
use snapper_keeper::skip_set::{SkipSet, SKIP_TTL_MS};

#[test]
fn mark_then_check_returns_skip_true() {
    let mut s = SkipSet::new();
    let h = hash_content(b"mark then check");
    s.mark_emitted(h, 1_000);
    assert!(s.should_skip(h, 1_000), "hash just marked should be a skip");
}

#[test]
fn unknown_hash_does_not_skip() {
    let mut s = SkipSet::new();
    let h = hash_content(b"never marked");
    assert!(!s.should_skip(h, 1_000));
}

#[test]
fn skip_is_one_shot_per_mark() {
    let mut s = SkipSet::new();
    let h = hash_content(b"one shot");
    s.mark_emitted(h, 1_000);
    assert!(s.should_skip(h, 1_000), "first check should skip");
    assert!(!s.should_skip(h, 1_000), "second check should not skip — entry consumed");
}

#[test]
fn two_unrelated_hashes_do_not_interfere() {
    let mut s = SkipSet::new();
    let a = hash_content(b"first");
    let b = hash_content(b"first").wrapping_add(1);
    s.mark_emitted(a, 1_000);
    s.mark_emitted(b, 1_000);
    assert!(s.should_skip(a, 1_000));
    assert!(s.should_skip(b, 1_000));
    assert!(!s.should_skip(a, 1_000));
    assert!(!s.should_skip(b, 1_000));
}

#[test]
fn expired_entry_does_not_skip() {
    let mut s = SkipSet::new();
    let h = hash_content(b"stale");
    s.mark_emitted(h, 1_000);
    assert!(!s.should_skip(h, 1_000 + SKIP_TTL_MS + 1_000), "expired entry should be pruned + not match");
}

#[test]
fn prune_removes_expired_entries() {
    let mut s = SkipSet::new();
    // Marked at 1000; expired by the check at 7000.
    s.mark_emitted(2, 1_000);
    // Marked at 5500, while entry 2 is still live; fresh at 7000.
    s.mark_emitted(1, 5_500);
    s.mark_emitted(3, 5_500);
    assert_eq!(s.hashes().len(), 3);
    let _ = s.should_skip(99, 7_000);
    let hashes = s.hashes();
    assert_eq!(hashes.len(), 2, "expired entry should have been pruned");
    assert!(hashes.contains(&1));
    assert!(hashes.contains(&3));
    assert!(!hashes.contains(&2));
}

#[test]
fn hash_content_deterministic() {
    let a = hash_content(b"hello world");
    let b = hash_content(b"hello world");
    assert_eq!(a, b);
}

#[test]
fn hash_content_different_inputs_differ() {
    let a = hash_content(b"hello");
    let b = hash_content(b"world");
    assert_ne!(a, b);
}

#[test]
fn entry_is_live_until_the_ttl_elapses() {
    let mut s = SkipSet::new();
    s.mark_emitted(5, 10_000);
    assert!(s.should_skip(5, 10_000 + SKIP_TTL_MS - 1));
    s.mark_emitted(6, 10_000);
    assert!(!s.should_skip(6, 10_000 + SKIP_TTL_MS));
}

#[test]
fn clear_forgets_every_mark() {
    let mut s = SkipSet::new();
    s.mark_emitted(8, 0);
    s.clear();
    assert!(s.hashes().is_empty());
    assert!(!s.should_skip(8, 0));
}
