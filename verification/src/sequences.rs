//! What the modules of this library share on lists: a membership test, and
//! facts about filtered sequences for the proofs.

use vstd::prelude::*;

verus! {

/// Whether a list holds an identifier.
pub fn contains_id(ids: &Vec<i64>, id: i64) -> (found: bool)
    ensures
        found == ids@.contains(id),
{
    let mut i: usize = 0;
    while i < ids.len()
        invariant
            0 <= i <= ids.len(),
            forall|j: int| 0 <= j < i ==> ids@[j] != id,
        decreases ids.len() - i,
    {
        if ids[i] == id {
            return true;
        }
        i += 1;
    }
    false
}

/// A filter that every element passes keeps the sequence.
pub proof fn lemma_filter_keeps_all<A>(s: Seq<A>, pred: spec_fn(A) -> bool)
    requires
        forall|i: int| 0 <= i < s.len() ==> pred(#[trigger] s[i]),
    ensures
        s.filter(pred) == s,
    decreases s.len(),
{
    reveal(Seq::filter);
    if s.len() > 0 {
        lemma_filter_keeps_all(s.drop_last(), pred);
        assert(s.drop_last().push(s.last()) =~= s);
    }
}

/// A filter that no element passes leaves nothing.
pub proof fn lemma_filter_drops_all<A>(s: Seq<A>, pred: spec_fn(A) -> bool)
    requires
        forall|i: int| 0 <= i < s.len() ==> !pred(#[trigger] s[i]),
    ensures
        s.filter(pred) == Seq::<A>::empty(),
    decreases s.len(),
{
    reveal(Seq::filter);
    if s.len() > 0 {
        lemma_filter_drops_all(s.drop_last(), pred);
    }
}

/// Filtering twice: where `first` and `instead` agree on every element that
/// passes `second`, filtering by `first` and then by `second` is filtering
/// by `second` and then by `instead`.
pub proof fn lemma_filter_twice<A>(
    s: Seq<A>,
    first: spec_fn(A) -> bool,
    second: spec_fn(A) -> bool,
    instead: spec_fn(A) -> bool,
)
    requires
        forall|i: int| 0 <= i < s.len() && second(#[trigger] s[i]) ==> (first(s[i]) <==> instead(s[i])),
    ensures
        s.filter(first).filter(second) == s.filter(second).filter(instead),
    decreases s.len(),
{
    reveal(Seq::filter);
    if s.len() > 0 {
        let rest = s.drop_last();
        let last = s.last();
        lemma_filter_twice(rest, first, second, instead);
        assert(rest.filter(first).push(last).drop_last() =~= rest.filter(first));
        assert(rest.filter(second).push(last).drop_last() =~= rest.filter(second));
    }
}

/// A map that does not change whether an element passes a filter commutes
/// with the filter.
pub proof fn lemma_filter_of_mapped<A>(s: Seq<A>, change: spec_fn(A) -> A, pred: spec_fn(A) -> bool)
    requires
        forall|i: int| 0 <= i < s.len() ==> pred(change(#[trigger] s[i])) == pred(s[i]),
    ensures
        s.map_values(change).filter(pred) == s.filter(pred).map_values(change),
    decreases s.len(),
{
    reveal(Seq::filter);
    if s.len() > 0 {
        let rest = s.drop_last();
        let last = s.last();
        lemma_filter_of_mapped(rest, change, pred);
        assert(s.map_values(change).drop_last() =~= rest.map_values(change));
        assert(s.map_values(change).last() == change(last));
        if pred(last) {
            assert(rest.filter(pred).push(last).map_values(change) =~= rest.filter(pred).map_values(
                change,
            ).push(change(last)));
        }
    } else {
        assert(s.map_values(change) =~= s);
        assert(s.filter(pred).map_values(change) =~= Seq::<A>::empty());
    }
}

/// Whether no two elements of a sequence have the same key.
pub open spec fn distinct_by<A>(s: Seq<A>, key: spec_fn(A) -> i64) -> bool {
    forall|i: int, j: int| #![trigger s[i], s[j]] 0 <= i < j < s.len() ==> key(s[i]) != key(s[j])
}

/// A filter leaves no two elements with the same key where there were none.
pub proof fn lemma_filter_keeps_distinct<A>(
    s: Seq<A>,
    pred: spec_fn(A) -> bool,
    key: spec_fn(A) -> i64,
)
    requires
        distinct_by(s, key),
    ensures
        distinct_by(s.filter(pred), key),
    decreases s.len(),
{
    reveal(Seq::filter);
    if s.len() > 0 {
        let rest = s.drop_last();
        let last = s.last();
        assert(distinct_by(rest, key)) by {
            assert forall|i: int, j: int| #![trigger rest[i], rest[j]] 0 <= i < j < rest.len() implies key(
                rest[i],
            ) != key(rest[j]) by {
                assert(rest[i] == s[i] && rest[j] == s[j]);
            }
        }
        lemma_filter_keeps_distinct(rest, pred, key);
        let kept = s.filter(pred);
        if pred(last) {
            assert forall|i: int, j: int| #![trigger kept[i], kept[j]] 0 <= i < j < kept.len() implies key(
                kept[i],
            ) != key(kept[j]) by {
                let before = rest.filter(pred);
                if j < before.len() {
                    assert(kept[i] == before[i] && kept[j] == before[j]);
                } else {
                    assert(kept[i] == before[i]);
                    assert(before.contains(before[i]));
                    rest.lemma_filter_contains_rev(pred, before[i]);
                    let k = choose|k: int| 0 <= k < rest.len() && rest[k] == before[i];
                    assert(s[k] == rest[k]);
                    assert(s[s.len() - 1] == last);
                }
            }
        }
    }
}

} // verus!
