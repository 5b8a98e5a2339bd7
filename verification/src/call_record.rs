//! Records of the calls a flow makes on the host around it: each host
//! keeps its calls in order, and a flow's contract speaks of the calls
//! made since it began.
use vstd::prelude::*;

verus! {

/// `after` is `before` with one call more.
pub open spec fn one_call_more<T>(before: Seq<T>, after: Seq<T>) -> bool {
    after.len() == before.len() + 1 && after.drop_last() == before
}

/// `after` starts with `before`.
pub open spec fn extends<T>(before: Seq<T>, after: Seq<T>) -> bool {
    before.len() <= after.len() && after.subrange(0, before.len() as int) == before
}

/// The calls in `after` that came after those in `before`.
pub open spec fn since<T>(before: Seq<T>, after: Seq<T>) -> Seq<T> {
    after.subrange(before.len() as int, after.len() as int)
}

/// A record extends itself, with nothing since.
pub proof fn lemma_extends_itself<T>(a: Seq<T>)
    ensures
        extends(a, a),
        since(a, a) == Seq::<T>::empty(),
{
    assert(a.subrange(0, a.len() as int) =~= a);
    assert(since(a, a) =~= Seq::<T>::empty());
}

/// One call more on a record that extends `a` adds that call to what
/// came since `a`.
pub proof fn lemma_one_call_more<T>(a: Seq<T>, b: Seq<T>, c: Seq<T>)
    requires
        extends(a, b),
        one_call_more(b, c),
    ensures
        extends(a, c),
        since(a, c) == since(a, b).push(c.last()),
{
    assert(c.subrange(0, a.len() as int) =~= b.subrange(0, a.len() as int));
    assert(since(a, c) =~= since(a, b).push(c.last()));
}

/// What came since `a` up to `c` is what came up to `b`, then up to `c`.
pub proof fn lemma_chain<T>(a: Seq<T>, b: Seq<T>, c: Seq<T>)
    requires
        extends(a, b),
        extends(b, c),
    ensures
        extends(a, c),
        since(a, c) == since(a, b) + since(b, c),
{
    assert(c.subrange(0, a.len() as int) =~= b.subrange(0, a.len() as int));
    assert(since(a, c) =~= since(a, b) + since(b, c));
}

} // verus!
