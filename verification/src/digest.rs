//! SHA-256 digests (via the `sha2` crate) and the identifiers derived from
//! them: content hashes for deduplication and the 64-bit own-write key.
use vstd::prelude::*;

use sha2::{Digest, Sha256};

use crate::text::{hex_lower, push_hex_lower};

verus! {

/// The SHA-256 digest of `data`.
pub uninterp spec fn sha256(data: Seq<u8>) -> Seq<u8>;

/// `sha2::Sha256::digest`: the SHA-256 digest of `data`, 32 bytes long.
#[verifier::external_body]
fn sha256_digest(data: &[u8]) -> (r: Vec<u8>)
    ensures
        r@ == sha256(data@),
        r@.len() == 32,
{
    Sha256::digest(data).to_vec()
}

/// The big-endian value of the first eight bytes of `b`.
pub open spec fn be_u64(b: Seq<u8>) -> int
    decreases b.len(),
{
    if b.len() == 0 {
        0
    } else {
        be_u64(b.drop_last()) * 256 + b.last()
    }
}

/// The 64-bit key of `bytes`: the first eight digest bytes, big-endian.
pub open spec fn spec_hash_content(bytes: Seq<u8>) -> u64 {
    be_u64(sha256(bytes).take(8)) as u64
}

proof fn lemma_be_u64_bound(b: Seq<u8>)
    ensures
        0 <= be_u64(b) < pow256(b.len()),
    decreases b.len(),
{
    if b.len() > 0 {
        lemma_be_u64_bound(b.drop_last());
        assert(pow256(b.len()) == pow256((b.len() - 1) as nat) * 256);
        assert(be_u64(b.drop_last()) * 256 + b.last() < pow256((b.len() - 1) as nat) * 256)
            by (nonlinear_arith)
            requires
                be_u64(b.drop_last()) < pow256((b.len() - 1) as nat),
                b.last() < 256,
        ;
    }
}

/// 256 to the power `n`.
pub open spec fn pow256(n: nat) -> int
    decreases n,
{
    if n == 0 {
        1
    } else {
        pow256((n - 1) as nat) * 256
    }
}

/// Hash arbitrary bytes to a `u64`: SHA-256 truncated to its first eight
/// bytes, read big-endian.
pub fn hash_content(bytes: &[u8]) -> (r: u64)
    ensures
        r == spec_hash_content(bytes@),
{
    let d = sha256_digest(bytes);
    let mut acc: u64 = 0;
    let mut i: usize = 0;
    while i < 8
        invariant
            i <= 8,
            d@.len() == 32,
            acc == be_u64(d@.take(i as int)),
        decreases 8 - i,
    {
        proof {
            lemma_be_u64_bound(d@.take(i as int));
            assert(pow256(i as nat) <= pow256(7)) by {
                lemma_pow256_mono(i as nat, 7);
            }
            assert(pow256(7) == 72057594037927936) by {
                reveal_with_fuel(pow256, 8);
            }
            let t = d@.take(i + 1);
            assert(t.drop_last() == d@.take(i as int));
        }
        acc = acc * 256 + d[i] as u64;
        i = i + 1;
    }
    acc
}

proof fn lemma_pow256_mono(a: nat, b: nat)
    requires
        a <= b,
    ensures
        pow256(a) <= pow256(b),
    decreases b,
{
    if a < b {
        lemma_pow256_mono(a, (b - 1) as nat);
        lemma_pow256_pos((b - 1) as nat);
    }
}

proof fn lemma_pow256_pos(n: nat)
    ensures
        pow256(n) >= 1,
    decreases n,
{
    if n > 0 {
        lemma_pow256_pos((n - 1) as nat);
    }
}

/// Lower-case hex SHA-256 digest of `bytes`.
pub open spec fn spec_hex_digest(bytes: Seq<u8>) -> Seq<char> {
    hex_lower(sha256(bytes))
}

/// The lower-case hex SHA-256 digest of `bytes` (64 characters).
pub fn hex_digest(bytes: &[u8]) -> (r: String)
    ensures
        r@ == spec_hex_digest(bytes@),
{
    let d = sha256_digest(bytes);
    let mut s = String::new();
    push_hex_lower(&mut s, &d);
    s
}

} // verus!
