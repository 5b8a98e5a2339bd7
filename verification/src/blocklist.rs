//! User-managed app blocklist: clipboard content written by a listed app is
//! never recorded.
use vstd::prelude::*;

use crate::source_app::{spec_identifier_matches, SourceApp, SourceAppKind};

verus! {

/// One blocked application as stored in the `clipboard.app_blocklist` setting.
#[derive(Debug, Clone, PartialEq, Eq)]
pub struct BlocklistEntry {
    pub identifier: String,
    pub display_name: String,
    pub kind: SourceAppKind,
}

/// Entry `e` blocks `source`: same kind, and identifiers match under that
/// kind's case rule.
pub open spec fn entry_blocks(e: BlocklistEntry, source: SourceApp) -> bool {
    e.kind == source.kind && spec_identifier_matches(source.kind, source.identifier@, e.identifier@)
}

/// Some entry of `entries` blocks `source`.
pub open spec fn spec_blocked(entries: Seq<BlocklistEntry>, source: SourceApp) -> bool {
    exists|i: int| 0 <= i < entries.len() && entry_blocks(#[trigger] entries[i], source)
}

/// Whether `source` is listed in `entries`. An unset or malformed setting
/// arrives here as the empty list and blocks nothing.
pub fn matches(entries: &Vec<BlocklistEntry>, source: &SourceApp) -> (r: bool)
    ensures
        r == spec_blocked(entries@, *source),
{
    let mut i: usize = 0;
    while i < entries.len()
        invariant
            i <= entries.len(),
            forall|j: int| 0 <= j < i ==> !entry_blocks(#[trigger] entries@[j], *source),
        decreases entries.len() - i,
    {
        let e = &entries[i];
        if e.kind == source.kind && source.identifier_matches(e.identifier.as_str()) {
            proof {
                assert(entry_blocks(entries@[i as int], *source));
            }
            return true;
        }
        i = i + 1;
    }
    false
}

} // verus!
