//! The clipboard watcher's decision cycle: whether an observed clipboard
//! change is recorded, deduplicated against history, or skipped, and why.
use vstd::prelude::*;

use crate::blocklist::{spec_blocked, BlocklistEntry};
use crate::digest::{hash_content, spec_hash_content, spec_hex_digest};
use crate::hasher::{hash_image_bytes, hash_text, spec_hash_text};
use crate::image_codec::{png_encode_rgba8, png_encoding};
use crate::skip_set::{
    first_with_hash, is_live, lemma_mark_then_skip, lemma_skip_is_one_shot, live_entries, swap_removed,
    SkipSet,
};
use crate::sensitivity::SensitivityProbe;
use crate::source_app::SourceApp;
use crate::text::utf8_bytes;
use crate::call_record::{extends, lemma_chain, lemma_extends_itself, lemma_one_call_more, one_call_more, since};

verus! {

/// A single observed clipboard change.
#[derive(Debug, Clone)]
pub enum ClipboardEvent {
    /// Text content.
    Text(String),
    /// Raw RGBA8 image bytes with pixel dimensions.
    Image { bytes: Vec<u8>, width: usize, height: usize },
}

/// Why the watcher did not record an event.
#[derive(Debug, Clone, PartialEq, Eq)]
pub enum SkipReason {
    SensitiveFlag,
    /// The writing app is blocklisted; carries its identifier.
    AppBlocked(String),
    DuplicateHash,
    EmptyContent,
    /// A lookup, write or insert failed; the same content may be retried.
    PersistFailed,
    /// The content is what the app itself just wrote to the clipboard.
    OwnWrite,
}

/// Outcome of one decision cycle.
#[derive(Debug, Clone, PartialEq, Eq)]
pub enum StepResult {
    Saved { item_id: String },
    DedupedTo { existing_id: String },
    Skipped(SkipReason),
}

/// Kind of a clipboard history item.
#[derive(Debug, Clone, Copy, PartialEq, Eq, Structural)]
pub enum ClipboardItemKind {
    Text,
    Image,
}

/// A history row to insert.
#[derive(Debug, Clone)]
pub struct NewClipboardItem {
    pub kind: ClipboardItemKind,
    pub text_content: Option<String>,
    /// Library-relative path of the stored PNG, for images.
    pub file_path: Option<String>,
    pub content_hash: String,
    pub source_app: Option<String>,
    pub source_window_title: Option<String>,
}

/// State the watcher carries across cycles.
pub struct WatcherState {
    /// Hash of the last content handled.
    pub last_hash: Option<String>,
    /// A written image file whose row was not inserted yet.
    pub pending_image: Option<String>,
}

/// `o` holds a string whose characters are `h`.
pub open spec fn holds(o: Option<String>, h: Seq<char>) -> bool {
    o matches Some(s) && s@ == h
}

impl WatcherState {
    /// Initial state: nothing handled, nothing pending.
    pub fn new() -> (r: Self)
        ensures
            r.last_hash is None,
            r.pending_image is None,
    {
        WatcherState { last_hash: None, pending_image: None }
    }
}

/// Former "skip the next clipboard event" switch, kept so that existing
/// callers still build. It does nothing: skipping is keyed by content hash
/// now, so callers hash what they write and mark it in the skip set.
pub fn mark_skip_next() {
}

/// The bytes an event's content is identified by: UTF-8 text or raw pixels.
pub open spec fn spec_event_bytes(event: ClipboardEvent) -> Seq<u8> {
    match event {
        ClipboardEvent::Text(t) => utf8_bytes(t@),
        ClipboardEvent::Image { bytes, .. } => bytes@,
    }
}

/// The content hash stored with an event's history row.
pub open spec fn spec_hash_of_event(event: ClipboardEvent) -> Seq<char> {
    match event {
        ClipboardEvent::Text(t) => spec_hash_text(t@),
        ClipboardEvent::Image { bytes, .. } => spec_hex_digest(bytes@),
    }
}

/// The content bytes of an event.
pub fn event_bytes(event: &ClipboardEvent) -> (r: &[u8])
    ensures
        r@ == spec_event_bytes(*event),
{
    match event {
        ClipboardEvent::Text(t) => t.as_str().as_bytes(),
        ClipboardEvent::Image { bytes, .. } => bytes.as_slice(),
    }
}

/// The content hash of an event.
pub fn hash_of_event(event: &ClipboardEvent) -> (r: String)
    ensures
        r@ == spec_hash_of_event(*event),
{
    match event {
        ClipboardEvent::Text(t) => hash_text(t.as_str()),
        ClipboardEvent::Image { bytes, .. } => hash_image_bytes(bytes.as_slice()),
    }
}

/// Encode raw RGBA8 bytes to PNG. `None` when the byte length is not
/// `width * height * 4`, when a dimension does not fit the encoder, or
/// when encoding fails.
pub fn encode_rgba_to_png(bytes: &[u8], width: usize, height: usize) -> (r: Option<Vec<u8>>)
    ensures
        bytes@.len() != width * height * 4 ==> r is None,
        bytes@.len() == width * height * 4 && 0 < width <= u32::MAX && 0 < height <= u32::MAX
            ==> r is Some,
        r matches Some(b) ==> width <= u32::MAX && height <= u32::MAX && b@ == png_encoding(
            bytes@,
            width as u32,
            height as u32,
        ),
{
    if width > u32::MAX as usize || height > u32::MAX as usize {
        return None;
    }
    let w: u32 = width as u32;
    let h: u32 = height as u32;
    proof {
        assert((w as int) * (h as int) <= 0xFFFF_FFFFint * 0xFFFF_FFFFint) by (nonlinear_arith)
            requires
                w <= 0xFFFF_FFFFint,
                h <= 0xFFFF_FFFFint,
        ;
    }
    let wh: u64 = (w as u64) * (h as u64);
    let n: usize = bytes.len();
    if wh > u64::MAX / 4 {
        proof {
            assert(n as int <= usize::MAX as int);
            assert(usize::MAX as int <= u64::MAX as int);
        }
        return None;
    }
    let expected: u64 = wh * 4;
    if bytes.len() as u64 != expected {
        return None;
    }
    match png_encode_rgba8(bytes, w, h) {
        Ok(b) => Some(b),
        Err(_) => None,
    }
}

/// The history row recorded for new content: its kind, text or stored
/// image path, content hash, and the identifier of the app that wrote it.
/// No window title is recorded for clipboard content.
pub fn history_item(
    kind: ClipboardItemKind,
    text_content: Option<String>,
    file_path: Option<String>,
    content_hash: String,
    source: Option<SourceApp>,
) -> (r: NewClipboardItem)
    ensures
        r.kind == kind,
        r.text_content == text_content,
        r.file_path == file_path,
        r.content_hash == content_hash,
        r.source_app == match source {
            Some(src) => Some(src.identifier),
            None => None::<String>,
        },
        r.source_window_title is None,
{
    let source_app = match source {
        Some(src) => Some(src.identifier),
        None => None,
    };
    NewClipboardItem { kind, text_content, file_path, content_hash, source_app, source_window_title: None }
}

/// Clipboard history keeps at most this many unpinned rows; older unpinned
/// rows are evicted as new ones arrive (pinned rows are exempt).
pub const MAX_UNPINNED: u32 = 200;

/// The outcome of moving content already in history to the top: a failed
/// bump is `PersistFailed` and acknowledges nothing, so the same content is
/// retried; a bumped row is `DedupedTo` that row, and the content hash is
/// remembered.
pub fn finish_dedupe(state: &mut WatcherState, hash: String, existing_id: String, bumped: Result<(), ()>) -> (r:
    StepResult)
    ensures
        final(state).pending_image == old(state).pending_image,
        match bumped {
            Ok(()) => r == (StepResult::DedupedTo { existing_id }) && final(state).last_hash == Some(
                hash,
            ),
            Err(()) => r == StepResult::Skipped(SkipReason::PersistFailed) && final(state).last_hash
                == old(state).last_hash,
        },
{
    match bumped {
        Ok(()) => {
            state.last_hash = Some(hash);
            StepResult::DedupedTo { existing_id }
        },
        Err(()) => StepResult::Skipped(SkipReason::PersistFailed),
    }
}

/// The outcome of inserting a new history row: an inserted row is `Saved`
/// under the id the store gave it, the content hash is remembered and an
/// image's file is no longer pending; a failed insert is `PersistFailed`
/// and acknowledges nothing (the caller then removes an image's file).
pub fn finish_insert(state: &mut WatcherState, hash: String, is_image: bool, inserted: Result<String, ()>) -> (r:
    StepResult)
    ensures
        match inserted {
            Ok(id) => {
                &&& r == (StepResult::Saved { item_id: id })
                &&& final(state).last_hash == Some(hash)
                &&& if is_image {
                    final(state).pending_image is None
                } else {
                    final(state).pending_image == old(state).pending_image
                }
            },
            Err(()) => {
                &&& r == StepResult::Skipped(SkipReason::PersistFailed)
                &&& final(state).last_hash == old(state).last_hash
                &&& final(state).pending_image == old(state).pending_image
            },
        },
{
    match inserted {
        Ok(item_id) => {
            if is_image {
                state.pending_image = None;
            }
            state.last_hash = Some(hash);
            StepResult::Saved { item_id }
        },
        Err(()) => StepResult::Skipped(SkipReason::PersistFailed),
    }
}

/// One call the watcher made on its store, with the store's answer.
#[derive(Debug)]
pub enum StoreCall {
    Find { hash: String, found: Result<Option<String>, ()> },
    Bump { id: String, bumped: Result<(), ()> },
    Insert { item: NewClipboardItem, inserted: Result<String, ()> },
    Evict { max_unpinned: u32 },
    NewImagePath { path: String },
    WriteImage { relative: String, png: Vec<u8>, written: bool },
    RemoveImage { relative: String, removed: bool },
}

/// Persistence boundary of the watcher: history rows and image files.
/// A store keeps the record of the calls made on it, each with the answer
/// it gave, so that what a cycle asked of it can be stated.
pub trait Store {
    /// Every call made on this store so far, with its answer, oldest first.
    spec fn calls(&self) -> Vec<StoreCall>;

    /// Id of the history row with content hash `hash`.
    fn find(&mut self, hash: &str) -> (r: Result<Option<String>, ()>)
        ensures
            one_call_more(old(self).calls()@, final(self).calls()@),
            final(self).calls()@.last() matches StoreCall::Find { hash: h, found } && h@ == hash@ && found
                == r,
    ;

    /// Move row `id` to the top of the history.
    fn bump(&mut self, id: &str) -> (r: Result<(), ()>)
        ensures
            one_call_more(old(self).calls()@, final(self).calls()@),
            final(self).calls()@.last() matches StoreCall::Bump { id: i, bumped } && i@ == id@ && bumped
                == r,
    ;

    /// Insert a row; its id.
    fn insert(&mut self, item: NewClipboardItem) -> (r: Result<String, ()>)
        ensures
            one_call_more(old(self).calls()@, final(self).calls()@),
            final(self).calls()@.last() matches StoreCall::Insert { item: it, inserted } && it == item
                && inserted == r,
    ;

    /// Evict the oldest unpinned rows beyond `max_unpinned`; pinned rows
    /// are exempt.
    fn evict(&mut self, max_unpinned: u32)
        ensures
            one_call_more(old(self).calls()@, final(self).calls()@),
            final(self).calls()@.last() matches StoreCall::Evict { max_unpinned: m } && m == max_unpinned,
    ;

    /// A fresh library-relative path for a clipboard image.
    fn new_image_path(&mut self) -> (r: String)
        ensures
            one_call_more(old(self).calls()@, final(self).calls()@),
            final(self).calls()@.last() matches StoreCall::NewImagePath { path } && path == r,
    ;

    /// Write an image file atomically; whether it succeeded.
    fn write_image(&mut self, relative: &str, png: &[u8]) -> (r: bool)
        ensures
            one_call_more(old(self).calls()@, final(self).calls()@),
            final(self).calls()@.last() matches StoreCall::WriteImage { relative: rel, png: bytes, written }
                && rel@ == relative@ && bytes@ == png@ && written == r,
    ;

    /// Remove an image file that no row refers to; whether it succeeded.
    fn remove_unpublished_image(&mut self, relative: &str) -> (r: bool)
        ensures
            one_call_more(old(self).calls()@, final(self).calls()@),
            final(self).calls()@.last() matches StoreCall::RemoveImage { relative: rel, removed } && rel@
                == relative@ && removed == r,
    ;
}

/// `item` is the history row for new content of `event` with content hash
/// `hash`: its kind, its text, the stored image path `path`, the hash and
/// the identifier of the writing app, with no window title.
pub open spec fn is_row_for(
    item: NewClipboardItem,
    event: ClipboardEvent,
    hash: Seq<char>,
    path: Option<String>,
    source: Option<SourceApp>,
) -> bool {
    &&& item.kind == (if event is Text {
        ClipboardItemKind::Text
    } else {
        ClipboardItemKind::Image
    })
    &&& item.text_content == match event {
        ClipboardEvent::Text(t) => Some(t),
        ClipboardEvent::Image { .. } => None::<String>,
    }
    &&& item.file_path == path
    &&& item.content_hash@ == hash
    &&& item.source_app == match source {
        Some(src) => Some(src.identifier),
        None => None::<String>,
    }
    &&& item.source_window_title is None
}

/// The calls `u` from the insert of new content on, and what they leave:
/// the row is inserted; an inserted row is `Saved`, followed by eviction
/// at the retention limit, remembers the hash and ends an image's
/// pendency; a failed insert is `PersistFailed`, leaves the last hash, and
/// for an image removes the written file, which stays pending only if that
/// removal fails.
pub open spec fn insert_tail(
    u: Seq<StoreCall>,
    event: ClipboardEvent,
    hash: Seq<char>,
    path: Option<String>,
    source: Option<SourceApp>,
    last0: Option<String>,
    pending0: Option<String>,
    r: StepResult,
    last1: Option<String>,
    pending1: Option<String>,
) -> bool {
    &&& u.len() >= 1
    &&& u[0] matches StoreCall::Insert { item, inserted }
    &&& is_row_for(item, event, hash, path, source)
    &&& match inserted {
        Ok(id) => {
            &&& u.len() == 2
            &&& u[1] matches StoreCall::Evict { max_unpinned }
            &&& max_unpinned == MAX_UNPINNED
            &&& r == (StepResult::Saved { item_id: id })
            &&& holds(last1, hash)
            &&& pending1 == if path is Some {
                None::<String>
            } else {
                pending0
            }
        },
        Err(()) => {
            &&& r == StepResult::Skipped(SkipReason::PersistFailed)
            &&& last1 == last0
            &&& match path {
                None => u.len() == 1 && pending1 == pending0,
                Some(p) => {
                    &&& u.len() == 2
                    &&& u[1] matches StoreCall::RemoveImage { relative, removed }
                    &&& relative@ == p@
                    &&& pending1 == if removed {
                        None::<String>
                    } else {
                        Some(p)
                    }
                },
            }
        },
    }
}

/// Raw image bytes that the PNG encoder takes: `width * height * 4` bytes,
/// with both dimensions positive and within `u32`.
pub open spec fn encodable(len: int, width: usize, height: usize) -> bool {
    &&& len == width * height * 4
    &&& 0 < width <= u32::MAX
    &&& 0 < height <= u32::MAX
}

/// The calls `u` of an image cycle once no earlier file is pending: bytes
/// the encoder does not take end the cycle as `PersistFailed` with no call;
/// otherwise a fresh path is taken and the PNG written there; a failed
/// write is `PersistFailed` and removes the file, which stays pending only
/// if that removal fails; a written file goes on to the insert.
pub open spec fn write_tail(
    u: Seq<StoreCall>,
    event: ClipboardEvent,
    hash: Seq<char>,
    source: Option<SourceApp>,
    last0: Option<String>,
    r: StepResult,
    last1: Option<String>,
    pending1: Option<String>,
) -> bool {
    match event {
        ClipboardEvent::Image { bytes, width, height } => if encodable(bytes@.len() as int, width, height) {
            &&& u.len() >= 2
            &&& u[0] matches StoreCall::NewImagePath { path }
            &&& u[1] matches StoreCall::WriteImage { relative, png, written }
            &&& relative@ == path@
            &&& png@ == png_encoding(bytes@, width as u32, height as u32)
            &&& if written {
                insert_tail(u.skip(2), event, hash, Some(path), source, last0, Some(path), r, last1, pending1)
            } else {
                &&& u.len() == 3
                &&& u[2] matches StoreCall::RemoveImage { relative: again, removed }
                &&& again@ == path@
                &&& r == StepResult::Skipped(SkipReason::PersistFailed)
                &&& last1 == last0
                &&& pending1 == if removed {
                    None::<String>
                } else {
                    Some(path)
                }
            }
        } else {
            &&& u.len() == 0
            &&& r == StepResult::Skipped(SkipReason::PersistFailed)
            &&& last1 == last0
            &&& pending1 is None
        },
        ClipboardEvent::Text(_) => false,
    }
}

/// The storage calls `u` of a cycle for content not yet acknowledged, and
/// what they leave. The content hash is looked up; a failed lookup is
/// `PersistFailed` with nothing else asked. A row that holds the content is
/// bumped: `DedupedTo` it, remembering the hash, or `PersistFailed`. New
/// text is inserted. For a new image, a file still pending from an earlier
/// cycle is removed first, and if that fails the cycle is `PersistFailed`
/// with nothing written; then it is encoded, written and inserted.
pub open spec fn storage_cycle(
    u: Seq<StoreCall>,
    event: ClipboardEvent,
    source: Option<SourceApp>,
    last0: Option<String>,
    pending0: Option<String>,
    r: StepResult,
    last1: Option<String>,
    pending1: Option<String>,
) -> bool {
    let hash = spec_hash_of_event(event);
    &&& u.len() >= 1
    &&& u[0] matches StoreCall::Find { hash: looked_up, found }
    &&& looked_up@ == hash
    &&& match found {
        Err(()) => {
            &&& u.len() == 1
            &&& r == StepResult::Skipped(SkipReason::PersistFailed)
            &&& last1 == last0
            &&& pending1 == pending0
        },
        Ok(Some(id)) => {
            &&& u.len() == 2
            &&& u[1] matches StoreCall::Bump { id: bumped_id, bumped }
            &&& bumped_id@ == id@
            &&& pending1 == pending0
            &&& match bumped {
                Ok(()) => r == (StepResult::DedupedTo { existing_id: id }) && holds(last1, hash),
                Err(()) => r == StepResult::Skipped(SkipReason::PersistFailed) && last1 == last0,
            }
        },
        Ok(None) => match event {
            ClipboardEvent::Text(_) => insert_tail(
                u.skip(1),
                event,
                hash,
                None,
                source,
                last0,
                pending0,
                r,
                last1,
                pending1,
            ),
            ClipboardEvent::Image { .. } => match pending0 {
                None => write_tail(u.skip(1), event, hash, source, last0, r, last1, pending1),
                Some(p) => {
                    &&& u.len() >= 2
                    &&& u[1] matches StoreCall::RemoveImage { relative, removed }
                    &&& relative@ == p@
                    &&& if removed {
                        write_tail(u.skip(2), event, hash, source, last0, r, last1, pending1)
                    } else {
                        &&& u.len() == 2
                        &&& r == StepResult::Skipped(SkipReason::PersistFailed)
                        &&& last1 == last0
                        &&& pending1 == pending0
                    }
                },
            },
        },
    }
}

/// What a cycle does before touching storage, given the live skip entries:
/// `Some(reason)` when it stops early, `None` when it goes on to storage.
pub open spec fn early_exit(
    event: ClipboardEvent,
    last_hash: Option<String>,
    live: Seq<(u64, u64)>,
    sensitive: bool,
    blocklist: Seq<BlocklistEntry>,
    source: Option<SourceApp>,
) -> Option<SkipReason> {
    if first_with_hash(live, spec_hash_content(spec_event_bytes(event))) is Some {
        Some(SkipReason::OwnWrite)
    } else if sensitive {
        Some(SkipReason::SensitiveFlag)
    } else if source matches Some(src) && spec_blocked(blocklist, src) {
        Some(SkipReason::AppBlocked(source->0.identifier))
    } else if spec_event_bytes(event).len() == 0 {
        Some(SkipReason::EmptyContent)
    } else if holds(last_hash, spec_hash_of_event(event)) {
        Some(SkipReason::DuplicateHash)
    } else {
        None
    }
}

/// Early exits that acknowledge the content (the next identical
/// observation is a duplicate) rather than leaving it to be retried.
pub open spec fn acknowledges(reason: SkipReason) -> bool {
    reason is OwnWrite || reason is SensitiveFlag || reason is AppBlocked
}

/// Content the app marked as its own write at `marked` is skipped as
/// `OwnWrite` when the watcher observes it within the TTL, whatever else
/// holds of it; the skip consumes the mark, so a later observation of the
/// same content is not an own write (when nothing else marked it).
pub proof fn lemma_own_write_skipped_once(
    event: ClipboardEvent,
    s: Seq<(u64, u64)>,
    marked: u64,
    now: u64,
    later: u64,
    last_hash: Option<String>,
    later_last_hash: Option<String>,
    sensitive: bool,
    blocklist: Seq<BlocklistEntry>,
    source: Option<SourceApp>,
)
    requires
        is_live(now, marked),
        forall|j: int| 0 <= j < s.len() ==> s[j].0 != spec_hash_content(spec_event_bytes(event)),
    ensures
        ({
            let key = spec_hash_content(spec_event_bytes(event));
            let live = live_entries(live_entries(s, marked).push((key, marked)), now);
            &&& early_exit(event, last_hash, live, sensitive, blocklist, source) == Some(
                SkipReason::OwnWrite,
            )
            &&& first_with_hash(live, key) matches Some(i) && early_exit(
                event,
                later_last_hash,
                live_entries(swap_removed(live, i), later),
                sensitive,
                blocklist,
                source,
            ) != Some(SkipReason::OwnWrite)
        }),
{
    let key = spec_hash_content(spec_event_bytes(event));
    lemma_mark_then_skip(s, key, marked, now);
    lemma_skip_is_one_shot(s, key, marked, now, later);
}

/// The first storage step: the history lookup of the content hash. A
/// failed lookup ends the cycle as `PersistFailed`, before anything is
/// written or inserted and without acknowledging the content; otherwise the
/// cycle goes on with the id of the row that already holds the content, if
/// any.
pub fn lookup_step(found: Result<Option<String>, ()>) -> (r: Result<Option<String>, StepResult>)
    ensures
        match found {
            Err(()) => r == Err::<Option<String>, StepResult>(StepResult::Skipped(SkipReason::PersistFailed)),
            Ok(existing) => r == Ok::<Option<String>, StepResult>(existing),
        },
{
    match found {
        Err(()) => Err(StepResult::Skipped(SkipReason::PersistFailed)),
        Ok(existing) => Ok(existing),
    }
}

/// What removing the pending image file leaves, given whether the removal
/// succeeded (`removed`; nothing to remove counts as success): the path
/// stops pending when its file is gone, and stays pending otherwise, so
/// that no new image file is written until it can be removed. The result
/// is whether nothing is left pending.
pub fn removal_step(state: &mut WatcherState, removed: bool) -> (r: bool)
    ensures
        final(state).last_hash == old(state).last_hash,
        r == (old(state).pending_image is None || removed),
        r ==> final(state).pending_image is None,
        !r ==> final(state).pending_image == old(state).pending_image,
{
    if state.pending_image.is_none() || removed {
        state.pending_image = None;
        true
    } else {
        false
    }
}

/// Every image removal recorded in `u` succeeded.
pub open spec fn removals_succeed(u: Seq<StoreCall>) -> bool {
    forall|i: int| 0 <= i < u.len() ==> (#[trigger] u[i] matches StoreCall::RemoveImage { removed, .. } ==> removed)
}

proof fn lemma_removals_succeed_after(u: Seq<StoreCall>, k: int)
    requires
        removals_succeed(u),
        0 <= k <= u.len(),
    ensures
        removals_succeed(u.skip(k)),
{
    let w = u.skip(k);
    assert forall|i: int| 0 <= i < w.len() implies (#[trigger] w[i] matches StoreCall::RemoveImage { removed, .. }
        ==> removed) by {
        assert(w[i] == u[k + i]);
    }
}

proof fn lemma_failed_write_leaves_nothing_pending(
    u: Seq<StoreCall>,
    event: ClipboardEvent,
    hash: Seq<char>,
    source: Option<SourceApp>,
    last0: Option<String>,
    r: StepResult,
    last1: Option<String>,
    pending1: Option<String>,
)
    requires
        write_tail(u, event, hash, source, last0, r, last1, pending1),
        r == StepResult::Skipped(SkipReason::PersistFailed),
        removals_succeed(u),
    ensures
        pending1 is None,
{
    if let ClipboardEvent::Image { bytes, width, height } = event {
        if encodable(bytes@.len() as int, width, height) {
            if let StoreCall::WriteImage { written, .. } = u[1] {
                if written {
                    lemma_removals_succeed_after(u, 2);
                    let v = u.skip(2);
                    if let StoreCall::Insert { inserted: Err(()), .. } = v[0] {
                        assert(v[1] matches StoreCall::RemoveImage { .. });
                    }
                } else {
                    assert(u[2] matches StoreCall::RemoveImage { .. });
                }
            }
        }
    }
}

/// An image cycle that fails to persist never leaves a file of its own
/// pending when the store removes what it is asked to: a written file whose
/// row was not inserted is removed again. What stays pending is at most
/// the file an earlier cycle left, when the lookup failed or the content
/// was already in history before that file was removed.
pub proof fn lemma_failed_image_cycle_leaves_nothing_pending(
    u: Seq<StoreCall>,
    event: ClipboardEvent,
    source: Option<SourceApp>,
    last0: Option<String>,
    pending0: Option<String>,
    r: StepResult,
    last1: Option<String>,
    pending1: Option<String>,
)
    requires
        event is Image,
        storage_cycle(u, event, source, last0, pending0, r, last1, pending1),
        r == StepResult::Skipped(SkipReason::PersistFailed),
        removals_succeed(u),
    ensures
        pending1 is None || pending1 == pending0,
        pending0 is None ==> pending1 is None,
{
    let h = spec_hash_of_event(event);
    if let StoreCall::Find { found: Ok(None), .. } = u[0] {
        if pending0 is Some {
            assert(u[1] matches StoreCall::RemoveImage { .. });
            lemma_removals_succeed_after(u, 2);
            lemma_failed_write_leaves_nothing_pending(u.skip(2), event, h, source, last0, r, last1, pending1);
        } else {
            lemma_removals_succeed_after(u, 1);
            lemma_failed_write_leaves_nothing_pending(u.skip(1), event, h, source, last0, r, last1, pending1);
        }
    }
}

/// Remove the pending image file, if any; whether nothing is left pending.
fn cleanup_pending_image<S: Store>(state: &mut WatcherState, store: &mut S) -> (r: bool)
    ensures
        final(state).last_hash == old(state).last_hash,
        r ==> final(state).pending_image is None,
        !r ==> final(state).pending_image == old(state).pending_image,
        match old(state).pending_image {
            None => r && final(store).calls()@ == old(store).calls()@,
            Some(p) => {
                &&& one_call_more(old(store).calls()@, final(store).calls()@)
                &&& final(store).calls()@.last() matches StoreCall::RemoveImage { relative, removed }
                &&& relative@ == p@
                &&& r == removed
            },
        },
{
    let removed = match &state.pending_image {
        None => true,
        Some(relative) => store.remove_unpublished_image(relative.as_str()),
    };
    removal_step(state, removed)
}

/// Insert the row for new content and finish the cycle on the store's
/// answer; `is_image` when the row refers to the pending image file `path`.
fn insert_and_finish<S: Store>(
    state: &mut WatcherState,
    store: &mut S,
    hash: String,
    item: NewClipboardItem,
    is_image: bool,
    Ghost(event): Ghost<ClipboardEvent>,
    Ghost(path): Ghost<Option<String>>,
    Ghost(source): Ghost<Option<SourceApp>>,
) -> (r: StepResult)
    requires
        is_row_for(item, event, hash@, path, source),
        is_image == path is Some,
        path is Some ==> old(state).pending_image == path,
    ensures
        extends(old(store).calls()@, final(store).calls()@),
        insert_tail(
            since(old(store).calls()@, final(store).calls()@),
            event,
            hash@,
            path,
            source,
            old(state).last_hash,
            old(state).pending_image,
            r,
            final(state).last_hash,
            final(state).pending_image,
        ),
{
    let ghost log0 = store.calls()@;
    let inserted = store.insert(item);
    let ghost log1 = store.calls()@;
    proof {
        lemma_extends_itself(log0);
        lemma_one_call_more(log0, log0, log1);
    }
    let saved = inserted.is_ok();
    let r = finish_insert(state, hash, is_image, inserted);
    if saved {
        store.evict(MAX_UNPINNED);
        proof {
            lemma_one_call_more(log0, log1, store.calls()@);
        }
    } else if is_image {
        cleanup_pending_image(state, store);
        proof {
            lemma_one_call_more(log0, log1, store.calls()@);
        }
    }
    r
}

/// Encode new image content, write it to a fresh path and insert its row;
/// no earlier file is pending.
fn write_and_insert<S: Store>(
    state: &mut WatcherState,
    store: &mut S,
    hash: String,
    bytes: Vec<u8>,
    width: usize,
    height: usize,
    source: Option<SourceApp>,
    Ghost(event): Ghost<ClipboardEvent>,
) -> (r: StepResult)
    requires
        event == (ClipboardEvent::Image { bytes, width, height }),
        bytes@.len() > 0,
        old(state).pending_image is None,
    ensures
        extends(old(store).calls()@, final(store).calls()@),
        write_tail(
            since(old(store).calls()@, final(store).calls()@),
            event,
            hash@,
            source,
            old(state).last_hash,
            r,
            final(state).last_hash,
            final(state).pending_image,
        ),
{
    let ghost log0 = store.calls()@;
    proof {
        lemma_extends_itself(log0);
    }
    let png = match encode_rgba_to_png(bytes.as_slice(), width, height) {
        Some(png) => png,
        None => {
            return StepResult::Skipped(SkipReason::PersistFailed);
        },
    };
    proof {
        assert(width > 0 && height > 0) by (nonlinear_arith)
            requires
                bytes@.len() == width * height * 4,
                bytes@.len() > 0,
        ;
    }
    let relative = store.new_image_path();
    let ghost log1 = store.calls()@;
    proof {
        lemma_one_call_more(log0, log0, log1);
    }
    state.pending_image = Some(relative.clone());
    let written = store.write_image(relative.as_str(), png.as_slice());
    let ghost log2 = store.calls()@;
    proof {
        lemma_one_call_more(log0, log1, log2);
    }
    if !written {
        cleanup_pending_image(state, store);
        proof {
            lemma_one_call_more(log0, log2, store.calls()@);
        }
        return StepResult::Skipped(SkipReason::PersistFailed);
    }
    let ghost path = relative;
    let item = history_item(ClipboardItemKind::Image, None, Some(relative), hash.clone(), source);
    let r = insert_and_finish(state, store, hash, item, true, Ghost(event), Ghost(Some(path)), Ghost(source));
    proof {
        lemma_chain(log0, log2, store.calls()@);
        assert(since(log0, store.calls()@).skip(2) =~= since(log2, store.calls()@));
    }
    r
}

/// The storage part of a cycle for content that no early exit stopped.
fn persist<S: Store>(
    event: ClipboardEvent,
    hash: String,
    state: &mut WatcherState,
    store: &mut S,
    source: Option<SourceApp>,
) -> (r: StepResult)
    requires
        hash@ == spec_hash_of_event(event),
        spec_event_bytes(event).len() > 0,
    ensures
        extends(old(store).calls()@, final(store).calls()@),
        storage_cycle(
            since(old(store).calls()@, final(store).calls()@),
            event,
            source,
            old(state).last_hash,
            old(state).pending_image,
            r,
            final(state).last_hash,
            final(state).pending_image,
        ),
{
    let ghost log0 = store.calls()@;
    let ghost ev = event;
    let ghost src = source;
    let found = store.find(hash.as_str());
    let ghost log1 = store.calls()@;
    proof {
        lemma_extends_itself(log0);
        lemma_one_call_more(log0, log0, log1);
    }
    let existing = match lookup_step(found) {
        Err(done) => {
            return done;
        },
        Ok(existing) => existing,
    };
    if let Some(existing_id) = existing {
        let bumped = store.bump(existing_id.as_str());
        proof {
            lemma_one_call_more(log0, log1, store.calls()@);
            assert(since(log0, store.calls()@).skip(1) =~= seq![store.calls()@.last()]);
        }
        return finish_dedupe(state, hash, existing_id, bumped);
    }
    match event {
        ClipboardEvent::Text(text) => {
            let item = history_item(ClipboardItemKind::Text, Some(text), None, hash.clone(), source);
            let r = insert_and_finish(state, store, hash, item, false, Ghost(ev), Ghost(None), Ghost(src));
            proof {
                lemma_chain(log0, log1, store.calls()@);
                assert(since(log0, store.calls()@).skip(1) =~= since(log1, store.calls()@));
            }
            r
        },
        ClipboardEvent::Image { bytes, width, height } => {
            if !cleanup_pending_image(state, store) {
                proof {
                    lemma_one_call_more(log0, log1, store.calls()@);
                }
                return StepResult::Skipped(SkipReason::PersistFailed);
            }
            let ghost log2 = store.calls()@;
            proof {
                if old(state).pending_image is Some {
                    lemma_one_call_more(log0, log1, log2);
                    assert(since(log0, log2).skip(2) =~= Seq::<StoreCall>::empty());
                } else {
                    assert(since(log0, log2).skip(1) =~= Seq::<StoreCall>::empty());
                }
            }
            let r = write_and_insert(state, store, hash, bytes, width, height, source, Ghost(ev));
            proof {
                lemma_chain(log0, log2, store.calls()@);
                let t = since(log0, store.calls()@);
                if old(state).pending_image is Some {
                    assert(t.skip(2) =~= since(log2, store.calls()@));
                } else {
                    assert(t.skip(1) =~= since(log2, store.calls()@));
                }
            }
            r
        },
    }
}

/// Decide what to do with one clipboard event.
///
/// In order: content the app itself just wrote (a live skip-set entry,
/// which the check consumes) is `OwnWrite`; content the probe, asked only
/// after that check, reports as sensitive is
/// `SensitiveFlag`; content from a blocklisted app is `AppBlocked`; these
/// three remember the content hash. Empty content is `EmptyContent` and a
/// repeat of the last handled hash is `DuplicateHash`; both leave the state
/// alone. Otherwise existing history is bumped (`DedupedTo`) or a row is
/// inserted (`Saved`), images first written as PNG files. Any storage
/// failure is `PersistFailed` and acknowledges nothing, so the same content
/// can be retried; a written image whose row was not inserted is removed,
/// and while an earlier one cannot be removed no new file is written. The
/// early exits make no store call; the calls made otherwise, and the
/// outcome for every answer, are those of `storage_cycle`.
pub fn worker_step_with_store<S: Store, P: SensitivityProbe>(
    event: ClipboardEvent,
    state: &mut WatcherState,
    store: &mut S,
    skip: &mut SkipSet,
    now: u64,
    probe: &P,
    blocklist: &Vec<BlocklistEntry>,
    source: Option<SourceApp>,
) -> (r: StepResult)
    ensures
        ({
            let live = live_entries(old(skip)@, now);
            let key = spec_hash_content(spec_event_bytes(event));
            final(skip)@ == match first_with_hash(live, key) {
                Some(i) => swap_removed(live, i),
                None => live,
            }
        }),
        ({
            let live = live_entries(old(skip)@, now);
            let h = spec_hash_of_event(event);
            match early_exit(event, old(state).last_hash, live, probe.answer_of(), blocklist@, source) {
                Some(reason) => {
                    &&& r == StepResult::Skipped(reason)
                    &&& final(state).pending_image == old(state).pending_image
                    &&& if acknowledges(reason) {
                        holds(final(state).last_hash, h)
                    } else {
                        final(state).last_hash == old(state).last_hash
                    }
                    &&& final(store).calls()@ == old(store).calls()@
                },
                None => {
                    &&& extends(old(store).calls()@, final(store).calls()@)
                    &&& storage_cycle(
                        since(old(store).calls()@, final(store).calls()@),
                        event,
                        source,
                        old(state).last_hash,
                        old(state).pending_image,
                        r,
                        final(state).last_hash,
                        final(state).pending_image,
                    )
                },
            }
        }),
{
    let ghost live = live_entries(skip@, now);
    let hash = hash_of_event(&event);
    let key = hash_content(event_bytes(&event));
    if skip.should_skip(key, now) {
        state.last_hash = Some(hash);
        return StepResult::Skipped(SkipReason::OwnWrite);
    }
    if probe.is_sensitive() {
        state.last_hash = Some(hash);
        return StepResult::Skipped(SkipReason::SensitiveFlag);
    }
    if let Some(src) = &source {
        if crate::blocklist::matches(blocklist, src) {
            state.last_hash = Some(hash);
            return StepResult::Skipped(SkipReason::AppBlocked(src.identifier.clone()));
        }
    }
    if event_bytes(&event).len() == 0 {
        return StepResult::Skipped(SkipReason::EmptyContent);
    }
    let duplicate = match &state.last_hash {
        Some(last) => crate::text::str_eq(last.as_str(), hash.as_str()),
        None => false,
    };
    if duplicate {
        return StepResult::Skipped(SkipReason::DuplicateHash);
    }
    persist(event, hash, state, store, source)
}

} // verus!
