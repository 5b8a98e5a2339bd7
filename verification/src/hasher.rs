//! Content hashes of clipboard items: text is hashed after collapsing runs
//! of whitespace, image bytes are hashed as they are.
use vstd::prelude::*;

use crate::digest::{hex_digest, spec_hex_digest};
use crate::text::{chars_of, push_char};

verus! {

/// The Unicode `White_Space` property.
pub open spec fn spec_is_whitespace(c: char) -> bool {
    let u = c as u32;
    ||| 0x09 <= u <= 0x0D
    ||| u == 0x20
    ||| u == 0x85
    ||| u == 0xA0
    ||| u == 0x1680
    ||| 0x2000 <= u <= 0x200A
    ||| u == 0x2028
    ||| u == 0x2029
    ||| u == 0x202F
    ||| u == 0x205F
    ||| u == 0x3000
}

/// Whether `c` has the Unicode `White_Space` property, which is what
/// `char::is_whitespace` decides.
fn is_whitespace(c: char) -> (r: bool)
    ensures
        r == spec_is_whitespace(c),
{
    let u: u32 = c as u32;
    (0x09 <= u && u <= 0x0D) || u == 0x20 || u == 0x85 || u == 0xA0 || u == 0x1680 || (0x2000 <= u && u
        <= 0x200A) || u == 0x2028 || u == 0x2029 || u == 0x202F || u == 0x205F || u == 0x3000
}

/// Whitespace collapsing over a prefix: the text built so far, and whether a
/// separating space is owed before the next word.
pub open spec fn collapse_state(s: Seq<char>) -> (Seq<char>, bool)
    decreases s.len(),
{
    if s.len() == 0 {
        (Seq::empty(), false)
    } else {
        let (acc, owed) = collapse_state(s.drop_last());
        let c = s.last();
        if spec_is_whitespace(c) {
            (acc, acc.len() > 0)
        } else {
            ((if owed { acc.push(' ') } else { acc }).push(c), false)
        }
    }
}

/// The words of `s` (maximal runs of non-whitespace) joined by single spaces.
pub open spec fn collapse_whitespace(s: Seq<char>) -> Seq<char> {
    collapse_state(s).0
}

/// The words of `text` joined by single spaces.
pub fn normalize_whitespace(text: &str) -> (r: String)
    ensures
        r@ == collapse_whitespace(text@),
{
    let cs = chars_of(text);
    let mut out = String::new();
    let mut owed = false;
    let mut started = false;
    let mut i: usize = 0;
    while i < cs.len()
        invariant
            i <= cs.len(),
            cs@ == text@,
            (out@, owed) == collapse_state(text@.take(i as int)),
            started == (out@.len() > 0),
        decreases cs.len() - i,
    {
        let c = cs[i];
        proof {
            let t = text@.take(i + 1);
            assert(t.drop_last() == text@.take(i as int));
            assert(t.last() == c);
        }
        if is_whitespace(c) {
            owed = started;
        } else {
            if owed {
                push_char(&mut out, ' ');
            }
            push_char(&mut out, c);
            owed = false;
            started = true;
        }
        i = i + 1;
    }
    proof {
        assert(text@.take(cs.len() as int) == text@);
    }
    out
}

/// Hash of a text item: hex SHA-256 of the UTF-8 bytes of the collapsed text.
pub open spec fn spec_hash_text(text: Seq<char>) -> Seq<char> {
    spec_hex_digest(crate::text::utf8_bytes(collapse_whitespace(text)))
}

/// Hash of text content, insensitive to how whitespace separates its words.
pub fn hash_text(text: &str) -> (r: String)
    ensures
        r@ == spec_hash_text(text@),
{
    let normalized = normalize_whitespace(text);
    hex_digest(normalized.as_str().as_bytes())
}

/// Hash of image content: hex SHA-256 of the raw bytes.
pub fn hash_image_bytes(bytes: &[u8]) -> (r: String)
    ensures
        r@ == spec_hex_digest(bytes@),
{
    hex_digest(bytes)
}

/// Texts that differ only in how whitespace separates their words have the
/// same hash.
pub proof fn lemma_hash_text_ignores_spacing(a: Seq<char>, b: Seq<char>)
    requires
        collapse_whitespace(a) == collapse_whitespace(b),
    ensures
        spec_hash_text(a) == spec_hash_text(b),
{
}

} // verus!
