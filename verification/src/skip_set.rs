//! Skip set: remembers content hashes the application itself just wrote to
//! the clipboard, so the watcher does not record its own writes.
//!
//! Each entry is a content hash and the time it was marked. An entry is
//! live for `SKIP_TTL_MS` after marking; a matching check consumes it.
use vstd::prelude::*;

verus! {

/// How long a marked hash stays live, in milliseconds (five seconds).
pub const SKIP_TTL_MS: u64 = 5000;

/// Time elapsed from `ts` to `now`, zero when `ts` is later.
pub open spec fn elapsed(now: u64, ts: u64) -> int {
    if now >= ts {
        now - ts
    } else {
        0
    }
}

/// An entry marked at `ts` is still live at `now`.
pub open spec fn is_live(now: u64, ts: u64) -> bool {
    elapsed(now, ts) < SKIP_TTL_MS
}

/// The entries of `s` that are live at `now`, in their order.
pub open spec fn live_entries(s: Seq<(u64, u64)>, now: u64) -> Seq<(u64, u64)>
    decreases s.len(),
{
    if s.len() == 0 {
        s
    } else {
        let rest = live_entries(s.drop_last(), now);
        if is_live(now, s.last().1) {
            rest.push(s.last())
        } else {
            rest
        }
    }
}

/// Index of the first entry of `s` with hash `h`, if any.
pub open spec fn first_with_hash(s: Seq<(u64, u64)>, h: u64) -> Option<int>
    decreases s.len(),
{
    if s.len() == 0 {
        None
    } else {
        match first_with_hash(s.drop_last(), h) {
            Some(i) => Some(i),
            None => if s.last().0 == h {
                Some((s.len() - 1) as int)
            } else {
                None
            },
        }
    }
}

/// Remove index `i` by moving the last entry into its place.
pub open spec fn swap_removed(s: Seq<(u64, u64)>, i: int) -> Seq<(u64, u64)> {
    s.update(i, s.last()).drop_last()
}

/// Recently self-emitted content hashes with the time each was marked.
pub struct SkipSet {
    entries: Vec<(u64, u64)>,
}

impl View for SkipSet {
    type V = Seq<(u64, u64)>;

    closed spec fn view(&self) -> Seq<(u64, u64)> {
        self.entries@
    }
}

proof fn lemma_first_with_hash_props(s: Seq<(u64, u64)>, h: u64)
    ensures
        match first_with_hash(s, h) {
            Some(i) => 0 <= i < s.len() && s[i].0 == h && forall|j: int|
                0 <= j < i ==> s[j].0 != h,
            None => forall|j: int| 0 <= j < s.len() ==> s[j].0 != h,
        },
    decreases s.len(),
{
    if s.len() > 0 {
        let d = s.drop_last();
        lemma_first_with_hash_props(d, h);
        assert forall|j: int| 0 <= j < d.len() implies d[j] == s[j] by {}
    }
}

impl SkipSet {
    /// An empty skip set.
    pub fn new() -> (r: Self)
        ensures
            r@ == Seq::<(u64, u64)>::empty(),
    {
        SkipSet { entries: Vec::new() }
    }

    /// Drop every entry that is no longer live at `now`.
    pub fn prune_expired(&mut self, now: u64)
        ensures
            final(self)@ == live_entries(old(self)@, now),
    {
        let mut kept: Vec<(u64, u64)> = Vec::new();
        let mut i: usize = 0;
        while i < self.entries.len()
            invariant
                i <= self.entries.len(),
                self@ == old(self)@,
                kept@ == live_entries(self@.take(i as int), now),
            decreases self.entries.len() - i,
        {
            let e = self.entries[i];
            proof {
                let t = self@.take(i + 1);
                assert(t.drop_last() == self@.take(i as int));
                assert(t.last() == e);
            }
            let age: u64 = if now >= e.1 { now - e.1 } else { 0 };
            if age < SKIP_TTL_MS {
                kept.push(e);
            }
            i = i + 1;
        }
        proof {
            assert(self@.take(self.entries.len() as int) == self@);
        }
        self.entries = kept;
    }

    /// Mark `hash` as written by us at `now` so that the watcher skips the
    /// next observation of that content within the TTL.
    pub fn mark_emitted(&mut self, hash: u64, now: u64)
        ensures
            final(self)@ == live_entries(old(self)@, now).push((hash, now)),
    {
        self.prune_expired(now);
        self.entries.push((hash, now));
    }

    /// Whether `hash` was marked and is still live at `now`. A hit consumes
    /// the matched entry: a second observation of the same content is a new
    /// event.
    pub fn should_skip(&mut self, hash: u64, now: u64) -> (r: bool)
        ensures
            ({
                let live = live_entries(old(self)@, now);
                match first_with_hash(live, hash) {
                    Some(i) => r && final(self)@ == swap_removed(live, i),
                    None => !r && final(self)@ == live,
                }
            }),
    {
        self.prune_expired(now);
        let ghost live = self@;
        proof {
            lemma_first_with_hash_props(live, hash);
        }
        let mut i: usize = 0;
        while i < self.entries.len()
            invariant
                i <= self.entries.len(),
                self@ == live,
                live == live_entries(old(self)@, now),
                forall|j: int| 0 <= j < i ==> self@[j].0 != hash,
            decreases self.entries.len() - i,
        {
            if self.entries[i].0 == hash {
                proof {
                    lemma_first_with_hash_props(live, hash);
                    assert(live[i as int].0 == hash);
                    assert(first_with_hash(live, hash) is Some);
                    let k = first_with_hash(live, hash)->0;
                    assert(k == i);
                    assert(first_with_hash(live, hash) == Some(i as int));
                }
                let ghost before = self.entries@;
                self.entries.swap_remove(i);
                proof {
                    assert(before == live);
                    assert(self.entries@ == swap_removed(live, i as int));
                }
                return true;
            }
            i = i + 1;
        }
        proof {
            match first_with_hash(live, hash) {
                Some(k) => {
                    assert(live[k].0 == hash);
                },
                None => {},
            }
        }
        false
    }

    /// The hashes currently held, in order.
    pub fn hashes(&self) -> (r: Vec<u64>)
        ensures
            r@.len() == self@.len(),
            forall|j: int| 0 <= j < self@.len() ==> r@[j] == self@[j].0,
    {
        let mut r: Vec<u64> = Vec::new();
        let mut i: usize = 0;
        while i < self.entries.len()
            invariant
                i <= self.entries.len(),
                r@.len() == i,
                forall|j: int| 0 <= j < i ==> r@[j] == self@[j].0,
            decreases self.entries.len() - i,
        {
            r.push(self.entries[i].0);
            i = i + 1;
        }
        r
    }

    /// Remove every entry.
    pub fn clear(&mut self)
        ensures
            final(self)@ == Seq::<(u64, u64)>::empty(),
    {
        self.entries = Vec::new();
    }
}

proof fn lemma_live_entries_live(s: Seq<(u64, u64)>, now: u64)
    ensures
        forall|j: int|
            0 <= j < live_entries(s, now).len() ==> is_live(now, #[trigger] live_entries(s, now)[j].1),
        live_entries(s, now).len() <= s.len(),
    decreases s.len(),
{
    if s.len() > 0 {
        lemma_live_entries_live(s.drop_last(), now);
    }
}

proof fn lemma_live_entries_of_live(s: Seq<(u64, u64)>, now: u64)
    requires
        forall|j: int| 0 <= j < s.len() ==> is_live(now, #[trigger] s[j].1),
    ensures
        live_entries(s, now) == s,
    decreases s.len(),
{
    if s.len() > 0 {
        lemma_live_entries_of_live(s.drop_last(), now);
        assert(s.drop_last().push(s.last()) == s);
    }
}

/// A hash marked at `marked` is skipped by a check at any `now` within the
/// TTL of the mark.
pub proof fn lemma_mark_then_skip(s: Seq<(u64, u64)>, hash: u64, marked: u64, now: u64)
    requires
        is_live(now, marked),
    ensures
        first_with_hash(live_entries(live_entries(s, marked).push((hash, marked)), now), hash) is Some,
{
    let m = live_entries(s, marked).push((hash, marked));
    assert(m.drop_last() == live_entries(s, marked));
    let l = live_entries(m, now);
    assert(l == live_entries(m.drop_last(), now).push((hash, marked)));
    assert(l.drop_last() == live_entries(m.drop_last(), now));
}

/// Marking one hash does not change whether another is skipped.
pub proof fn lemma_unrelated_marks_do_not_interfere(
    s: Seq<(u64, u64)>,
    hash: u64,
    other: u64,
    marked: u64,
    now: u64,
)
    requires
        hash != other,
    ensures
        (first_with_hash(live_entries(live_entries(s, marked).push((other, marked)), now), hash) is Some)
            == (first_with_hash(live_entries(live_entries(s, marked), now), hash) is Some),
{
    let before = live_entries(s, marked);
    let m = before.push((other, marked));
    assert(m.drop_last() == before);
    let l = live_entries(m, now);
    let rest = live_entries(before, now);
    if is_live(now, marked) {
        assert(l == rest.push((other, marked)));
        assert(l.drop_last() == rest);
    } else {
        assert(l == rest);
    }
}

/// A mark is consumed by the check it causes to skip: with no other entry
/// for the hash, a later check of the same content finds nothing to skip.
pub proof fn lemma_skip_is_one_shot(s: Seq<(u64, u64)>, hash: u64, marked: u64, now: u64, later: u64)
    requires
        is_live(now, marked),
        forall|j: int| 0 <= j < s.len() ==> s[j].0 != hash,
    ensures
        ({
            let live = live_entries(live_entries(s, marked).push((hash, marked)), now);
            first_with_hash(live, hash) matches Some(i) && first_with_hash(
                live_entries(swap_removed(live, i), later),
                hash,
            ) is None
        }),
{
    let before = live_entries(s, marked);
    let m = before.push((hash, marked));
    assert(m.drop_last() == before);
    let live = live_entries(m, now);
    let rest = live_entries(before, now);
    assert(live == rest.push((hash, marked)));
    lemma_live_entries_from(s, marked);
    assert forall|j: int| 0 <= j < before.len() implies before[j].0 != hash by {
        let k = choose|k: int| 0 <= k < s.len() && s[k] == #[trigger] live_entries(s, marked)[j];
    }
    lemma_unmarked_not_skipped(before, hash, now);
    assert(live.drop_last() == rest);
    assert(live.last() == (hash, marked));
    assert(first_with_hash(live, hash) == Some((live.len() - 1) as int));
    assert(swap_removed(live, (live.len() - 1) as int) == rest);
    lemma_first_with_hash_props(rest, hash);
    lemma_unmarked_not_skipped(rest, hash, later);
}

proof fn lemma_live_entries_from(s: Seq<(u64, u64)>, now: u64)
    ensures
        forall|j: int|
            0 <= j < live_entries(s, now).len() ==> exists|k: int|
                0 <= k < s.len() && s[k] == #[trigger] live_entries(s, now)[j],
    decreases s.len(),
{
    if s.len() > 0 {
        lemma_live_entries_from(s.drop_last(), now);
        let rest = live_entries(s.drop_last(), now);
        assert forall|j: int| 0 <= j < live_entries(s, now).len() implies exists|k: int|
            0 <= k < s.len() && s[k] == #[trigger] live_entries(s, now)[j] by {
            if j < rest.len() {
                let k = choose|k: int| 0 <= k < s.drop_last().len() && s.drop_last()[k] == rest[j];
                assert(s[k] == live_entries(s, now)[j]);
            } else {
                assert(s[s.len() - 1] == live_entries(s, now)[j]);
            }
        }
    }
}

/// A check for a hash that no entry holds reports no skip.
pub proof fn lemma_unmarked_not_skipped(s: Seq<(u64, u64)>, hash: u64, now: u64)
    requires
        forall|j: int| 0 <= j < s.len() ==> s[j].0 != hash,
    ensures
        first_with_hash(live_entries(s, now), hash) is None,
{
    let l = live_entries(s, now);
    lemma_live_entries_from(s, now);
    lemma_first_with_hash_props(l, hash);
    match first_with_hash(l, hash) {
        Some(i) => {
            let k = choose|k: int| 0 <= k < s.len() && s[k] == #[trigger] l[i];
            assert(s[k].0 == hash);
        },
        None => {},
    }
}

/// An entry older than the TTL never causes a skip.
pub proof fn lemma_expired_not_skipped(hash: u64, marked: u64, now: u64)
    requires
        now >= marked,
        now - marked >= SKIP_TTL_MS,
    ensures
        first_with_hash(live_entries(seq![(hash, marked)], now), hash) is None,
{
    let s = seq![(hash, marked)];
    assert(s.drop_last() == Seq::<(u64, u64)>::empty());
    reveal_with_fuel(live_entries, 2);
    assert(live_entries(s, now) == Seq::<(u64, u64)>::empty());
}

} // verus!
