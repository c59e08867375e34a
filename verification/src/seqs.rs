//! Facts about filtered sequences that several modules rest on.

use vstd::prelude::*;

verus! {

/// A filter keeps a sequence whole where every element passes.
pub proof fn lemma_filter_keeps_all<T>(s: Seq<T>, pred: spec_fn(T) -> bool)
    requires
        forall|i: int| 0 <= i < s.len() ==> pred(#[trigger] s[i]),
    ensures
        s.filter(pred) == s,
    decreases s.len(),
{
    reveal(Seq::filter);
    if s.len() > 0 {
        lemma_filter_keeps_all(s.drop_last(), pred);
        assert(s.drop_last().push(s.last()) =~= s);
    }
}

/// A filter leaves nothing where no element passes.
pub proof fn lemma_filter_drops_all<T>(s: Seq<T>, pred: spec_fn(T) -> bool)
    requires
        forall|i: int| 0 <= i < s.len() ==> !pred(#[trigger] s[i]),
    ensures
        s.filter(pred) == Seq::<T>::empty(),
    decreases s.len(),
{
    reveal(Seq::filter);
    if s.len() > 0 {
        lemma_filter_drops_all(s.drop_last(), pred);
    }
}

/// What a filter keeps of a prefix is a prefix of what it keeps of the
/// whole.
pub proof fn lemma_filter_of_prefix<T>(s: Seq<T>, pred: spec_fn(T) -> bool, n: int)
    requires
        0 <= n <= s.len(),
    ensures
        s.take(n).filter(pred).len() <= s.filter(pred).len(),
        s.take(n).filter(pred) == s.filter(pred).take(s.take(n).filter(pred).len() as int),
    decreases s.len() - n,
{
    reveal(Seq::filter);
    let whole = s.filter(pred);
    if n == s.len() {
        assert(s.take(n) =~= s);
        assert(whole.take(whole.len() as int) =~= whole);
    } else {
        lemma_filter_of_prefix(s, pred, n + 1);
        assert(s.take(n + 1).drop_last() =~= s.take(n));
        assert(s.take(n + 1).last() == s[n]);
        let longer = s.take(n + 1).filter(pred);
        let shorter = s.take(n).filter(pred);
        if pred(s[n]) {
            assert(longer == shorter.push(s[n]));
            assert(shorter =~= longer.take(shorter.len() as int));
            assert(shorter =~= whole.take(shorter.len() as int));
        }
    }
}

/// Filtering by a condition and then by a stricter one is filtering by the
/// stricter one.
pub proof fn lemma_filter_twice<T>(s: Seq<T>, wide: spec_fn(T) -> bool, narrow: spec_fn(T) -> bool)
    requires
        forall|x: T| #[trigger] narrow(x) ==> wide(x),
    ensures
        s.filter(wide).filter(narrow) == s.filter(narrow),
    decreases s.len(),
{
    reveal(Seq::filter);
    if s.len() > 0 {
        let init = s.drop_last();
        let last = s.last();
        lemma_filter_twice(init, wide, narrow);
        let kept = init.filter(wide);
        if wide(last) {
            assert(s.filter(wide) == kept.push(last));
            assert(kept.push(last).drop_last() =~= kept);
            assert(kept.push(last).last() == last);
        }
    }
}

} // verus!
