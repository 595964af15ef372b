//! The order in which the children of a recipe are handed out: by ascending
//! position, and among equal positions as the store returned them.

use crate::models::{rows_of, ChildRecord, ChildRow, RecipeView};
use vstd::prelude::*;

verus! {

/// How many rows at the front of a list stand before `position`.
pub open spec fn rank(rows: Seq<ChildRow>, position: i64) -> nat
    decreases rows.len(),
{
    if rows.len() == 0 || rows[0].position >= position {
        0
    } else {
        1 + rank(rows.skip(1), position)
    }
}

/// A list with one more row, put before the first row whose position is not
/// smaller.
pub open spec fn placed(row: ChildRow, rows: Seq<ChildRow>) -> Seq<ChildRow> {
    rows.insert(rank(rows, row.position) as int, row)
}

/// The rows of a list by ascending position; rows of equal position keep
/// the order in which the list has them.
pub open spec fn sorted_by_position(rows: Seq<ChildRow>) -> Seq<ChildRow>
    decreases rows.len(),
{
    if rows.len() == 0 {
        rows
    } else {
        placed(rows[0], sorted_by_position(rows.skip(1)))
    }
}

/// A recipe with each of its collections by ascending position.
pub open spec fn in_order(recipe: RecipeView) -> RecipeView {
    RecipeView {
        base: recipe.base,
        ingredients: sorted_by_position(recipe.ingredients),
        instructions: sorted_by_position(recipe.instructions),
    }
}

/// Whether no row of a list stands before a row of smaller position.
pub open spec fn ascending(rows: Seq<ChildRow>) -> bool {
    forall|i: int, j: int|
        #![trigger rows[i], rows[j]]
        0 <= i <= j < rows.len() ==> rows[i].position <= rows[j].position
}

proof fn lemma_rank(rows: Seq<ChildRow>, position: i64)
    ensures
        rank(rows, position) <= rows.len(),
        forall|i: int| 0 <= i < rank(rows, position) ==> (#[trigger] rows[i]).position < position,
        rank(rows, position) < rows.len() ==> rows[rank(rows, position) as int].position
            >= position,
    decreases rows.len(),
{
    if !(rows.len() == 0 || rows[0].position >= position) {
        let rest = rows.skip(1);
        lemma_rank(rest, position);
        assert forall|i: int| 0 <= i < rank(rows, position) implies (#[trigger] rows[i]).position
            < position by {
            if i > 0 {
                assert(rows[i] == rest[i - 1]);
            }
        }
        if rank(rows, position) < rows.len() {
            assert(rows[rank(rows, position) as int] == rest[rank(rest, position) as int]);
        }
    }
}

proof fn lemma_placed(row: ChildRow, rows: Seq<ChildRow>)
    requires
        ascending(rows),
    ensures
        ascending(placed(row, rows)),
        placed(row, rows).len() == rows.len() + 1,
        placed(row, rows).to_multiset() == rows.to_multiset().insert(row),
{
    let at = rank(rows, row.position) as int;
    let all = placed(row, rows);
    lemma_rank(rows, row.position);
    assert forall|i: int, j: int| #![trigger all[i], all[j]] 0 <= i <= j < all.len() implies all[i].position
        <= all[j].position by {
        if i < at {
            assert(all[i] == rows[i]);
        } else if i > at {
            assert(all[i] == rows[i - 1]);
        }
        if j < at {
            assert(all[j] == rows[j]);
        } else if j > at {
            assert(all[j] == rows[j - 1]);
            assert(rows[at].position <= rows[j - 1].position);
        }
    }
    assert(all.remove(at) =~= rows);
    broadcast use vstd::seq_lib::group_to_multiset_ensures;
    vstd::seq_lib::to_multiset_remove(all, at);
    assert(all[at] == row);
    assert(all.contains(row));
    assert(all.to_multiset() =~= rows.to_multiset().insert(row));
}

/// Sorting gives an ascending list.
pub proof fn lemma_sorted_is_ascending(rows: Seq<ChildRow>)
    ensures
        ascending(sorted_by_position(rows)),
    decreases rows.len(),
{
    if rows.len() > 0 {
        lemma_sorted_is_ascending(rows.skip(1));
        lemma_placed(rows[0], sorted_by_position(rows.skip(1)));
    }
}

/// Sorting keeps every row, each as often as the list has it.
pub proof fn lemma_sorted_is_permutation(rows: Seq<ChildRow>)
    ensures
        sorted_by_position(rows).len() == rows.len(),
        sorted_by_position(rows).to_multiset() == rows.to_multiset(),
    decreases rows.len(),
{
    if rows.len() > 0 {
        let rest = rows.skip(1);
        lemma_sorted_is_permutation(rest);
        lemma_sorted_is_ascending(rest);
        lemma_placed(rows[0], sorted_by_position(rest));
        broadcast use vstd::seq_lib::group_to_multiset_ensures;
        assert(rows.remove(0) =~= rest);
        vstd::seq_lib::to_multiset_remove(rows, 0);
        assert(rows.contains(rows[0]));
        assert(rows.to_multiset() =~= rest.to_multiset().insert(rows[0]));
    }
}

/// Sorting leaves an ascending list as it is.
pub proof fn lemma_ascending_is_kept(rows: Seq<ChildRow>)
    requires
        ascending(rows),
    ensures
        sorted_by_position(rows) == rows,
    decreases rows.len(),
{
    if rows.len() > 0 {
        let rest = rows.skip(1);
        assert(ascending(rest)) by {
            assert forall|i: int, j: int| #![trigger rest[i], rest[j]] 0 <= i <= j < rest.len() implies rest[i].position
                <= rest[j].position by {
                assert(rest[i] == rows[i + 1]);
                assert(rest[j] == rows[j + 1]);
            }
        }
        lemma_ascending_is_kept(rest);
        if rest.len() > 0 {
            assert(rest[0] == rows[1]);
            assert(rows[0].position <= rows[1].position);
        }
        assert(rank(rest, rows[0].position) == 0);
        assert(rest.insert(0, rows[0]) =~= rows);
    }
}

/// The records by ascending position; records of equal position keep the
/// order in which they came.
pub fn sort_by_position<T: ChildRecord>(records: Vec<T>) -> (sorted: Vec<T>)
    ensures
        rows_of(sorted@) == sorted_by_position(rows_of(records@)),
{
    let ghost rows = rows_of(records@);
    let mut left = records;
    let mut sorted: Vec<T> = Vec::new();
    assert(rows.skip(rows.len() as int) =~= Seq::<ChildRow>::empty());
    assert(rows_of(sorted@) =~= Seq::<ChildRow>::empty());
    while left.len() > 0
        invariant
            left@.len() <= rows.len(),
            rows_of(left@) == rows.take(left@.len() as int),
            rows_of(sorted@) == sorted_by_position(rows.skip(left@.len() as int)),
        decreases left@.len(),
    {
        let ghost k = left@.len() as int;
        let ghost before = rows_of(sorted@);
        let record = left.pop().unwrap();
        let position = record.position();
        assert(record.row() == rows[k - 1]) by {
            assert(rows.take(k)[k - 1] == rows[k - 1]);
        }
        let mut at: usize = 0;
        assert(before.skip(0) =~= before);
        while at < sorted.len() && sorted[at].position() < position
            invariant
                at <= sorted@.len(),
                before == rows_of(sorted@),
                rank(before, position) == at + rank(before.skip(at as int), position),
            decreases sorted@.len() - at,
        {
            assert(before.skip(at as int).skip(1) =~= before.skip(at + 1));
            at += 1;
        }
        sorted.insert(at, record);
        proof {
            assert(rank(before, position) == at);
            assert(rows_of(sorted@) =~= placed(rows[k - 1], before));
            assert(rows.skip(k - 1).skip(1) =~= rows.skip(k));
            assert(rows.skip(k - 1)[0] == rows[k - 1]);
            assert(rows_of(left@) =~= rows.take(k - 1));
        }
    }
    assert(rows.skip(0) =~= rows);
    sorted
}

} // verus!
