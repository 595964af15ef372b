//! What the stored children are once a reconciliation has run. The recipe
//! owns the rows that the submitted list names, each with the list's
//! position and description under its old identifier, and behind them one
//! new row per item without an identifier. The rows of other recipes are as
//! they were.

use crate::models::{ChildEdit, ChildRow, NewChild};
use crate::reconcile::{
    columns_of, deletes_of, insert_of, inserts_of, reconcile_plan, rows_to_delete, submitted_ids,
    update_of, updates_of,
};
use crate::sequences::{
    lemma_filter_drops_all, lemma_filter_keeps_all, lemma_filter_of_mapped, lemma_filter_twice,
};
use crate::statements::{ChildKind, StatementView};
use crate::store::{
    child_row, lemma_run_both, lemma_run_one, lemma_run_push, new_rows, rows_added_by,
    rows_unique, Store,
};
use vstd::prelude::*;

verus! {

/// Whether a list names a stored row.
pub open spec fn names(submitted: Seq<ChildEdit>, row: ChildRow) -> bool {
    submitted_ids(submitted).contains(row.id)
}

/// A row after the updates of a list, run in order: with the position and
/// description of the last item that names it, and as it was if none does.
pub open spec fn written(submitted: Seq<ChildEdit>, row: ChildRow) -> ChildRow
    decreases submitted.len(),
{
    if submitted.len() == 0 {
        row
    } else if submitted.last().id == Some(row.id) {
        child_row(row.id, row.recipe_id, columns_of(submitted.last()))
    } else {
        written(submitted.drop_last(), row)
    }
}

/// A row of the table after the updates that a list asks of one recipe: a
/// row of that recipe as the list writes it, any other row as it was.
pub open spec fn rewritten(recipe_id: i64, submitted: Seq<ChildEdit>, row: ChildRow) -> ChildRow {
    if row.recipe_id == recipe_id {
        written(submitted, row)
    } else {
        row
    }
}

/// The columns of the items that carry no identifier, in submitted order.
pub open spec fn fresh_columns(submitted: Seq<ChildEdit>) -> Seq<NewChild> {
    submitted.filter_map(
        |item: ChildEdit|
            match item.id {
                Some(_) => None,
                None => Some(columns_of(item)),
            },
    )
}

/// The updates of a list never give a row another identifier or another
/// owner, and leave a row alone that no item names.
pub proof fn lemma_written_keeps_identity(submitted: Seq<ChildEdit>, row: ChildRow)
    ensures
        written(submitted, row).id == row.id,
        written(submitted, row).recipe_id == row.recipe_id,
        !names(submitted, row) ==> written(submitted, row) == row,
    decreases submitted.len(),
{
    if submitted.len() > 0 {
        let before = submitted.drop_last();
        lemma_written_keeps_identity(before, row);
        if submitted.last().id == Some(row.id) {
            assert(submitted[submitted.len() - 1].id == Some(row.id));
        } else if names(before, row) {
            let i = choose|i: int| 0 <= i < before.len() && (#[trigger] before[i]).id == Some(row.id);
            assert(submitted[i] == before[i]);
        }
    }
}

/// Where several items name a row, the last of them decides: a row takes
/// the position and description of the item that names it and that no later
/// item overrides.
pub proof fn lemma_last_item_wins(submitted: Seq<ChildEdit>, row: ChildRow, i: int)
    requires
        0 <= i < submitted.len(),
        submitted[i].id == Some(row.id),
        forall|j: int| i < j < submitted.len() ==> (#[trigger] submitted[j]).id != Some(row.id),
    ensures
        names(submitted, row),
        written(submitted, row) == child_row(row.id, row.recipe_id, columns_of(submitted[i])),
    decreases submitted.len(),
{
    if i < submitted.len() - 1 {
        let before = submitted.drop_last();
        assert(submitted[submitted.len() - 1].id != Some(row.id));
        assert(before[i] == submitted[i]);
        assert forall|j: int| i < j < before.len() implies (#[trigger] before[j]).id != Some(
            row.id,
        ) by {
            assert(before[j] == submitted[j]);
        }
        lemma_last_item_wins(before, row, i);
    }
}

proof fn lemma_after_deletes(
    store: Store,
    kind: ChildKind,
    recipe_id: i64,
    submitted: Seq<ChildEdit>,
    ids: Seq<i64>,
)
    ensures
        ({
            let gone = rows_to_delete(store.child_ids(kind, recipe_id), submitted);
            let plan = deletes_of(kind, store.child_ids(kind, recipe_id), submitted);
            let after = store.run(plan, ids);
            &&& rows_added_by(plan) == 0
            &&& after.children(kind) == store.children(kind).filter(
                |row: ChildRow| !gone.contains(row.id),
            )
            &&& after.children_of(kind, recipe_id) == store.children_of(kind, recipe_id).filter(
                |row: ChildRow| names(submitted, row),
            )
            &&& after.recipes == store.recipes
            &&& forall|other: ChildKind| other != kind ==> after.children(other) == store.children(other)
        }),
{
    let table = store.children(kind);
    let mine = |row: ChildRow| row.recipe_id == recipe_id;
    let named = |row: ChildRow| names(submitted, row);
    let rows = store.children_of(kind, recipe_id);
    let existing = store.child_ids(kind, recipe_id);
    let stays = |id: i64| !submitted_ids(submitted).contains(id);
    let gone = rows_to_delete(existing, submitted);
    let kept = |row: ChildRow| !gone.contains(row.id);
    assert(gone == existing.filter(stays));
    let plan = deletes_of(kind, existing, submitted);
    assert forall|id: i64| gone.contains(id) <==> existing.contains(id) && stays(id) by {
        if gone.contains(id) {
            existing.lemma_filter_contains_rev(stays, id);
            let k = choose|k: int| 0 <= k < gone.len() && gone[k] == id;
            existing.lemma_filter_pred(stays, k);
        }
        if existing.contains(id) && stays(id) {
            let k = choose|k: int| 0 <= k < existing.len() && existing[k] == id;
            existing.lemma_filter_contains(stays, k);
        }
    }
    assert forall|i: int| 0 <= i < table.len() && mine(#[trigger] table[i]) implies existing.contains(
        table[i].id,
    ) by {
        table.lemma_filter_contains(mine, i);
        let k = choose|k: int| 0 <= k < rows.len() && rows[k] == table[i];
        assert(existing[k] == table[i].id);
    }
    lemma_filter_twice(table, kept, mine, named);
    if gone.len() == 0 {
        assert(plan =~= Seq::<StatementView>::empty());
        assert forall|i: int| 0 <= i < table.len() implies kept(#[trigger] table[i]) by {
            if gone.contains(table[i].id) {
                let k = choose|k: int| 0 <= k < gone.len() && gone[k] == table[i].id;
            }
        }
        lemma_filter_keeps_all(table, kept);
    } else {
        let delete = StatementView::DeleteChildren { kind, ids: gone };
        assert(plan =~= seq![delete]);
        lemma_run_one(store, delete, ids);
    }
}

proof fn lemma_after_updates(
    store: Store,
    kind: ChildKind,
    recipe_id: i64,
    submitted: Seq<ChildEdit>,
    ids: Seq<i64>,
)
    ensures
        ({
            let plan = updates_of(kind, recipe_id, submitted);
            let after = store.run(plan, ids);
            &&& rows_added_by(plan) == 0
            &&& after.children(kind) == store.children(kind).map_values(
                |row: ChildRow| rewritten(recipe_id, submitted, row),
            )
            &&& after.recipes == store.recipes
            &&& forall|other: ChildKind| other != kind ==> after.children(other) == store.children(other)
        }),
    decreases submitted.len(),
{
    let table = store.children(kind);
    let plan = updates_of(kind, recipe_id, submitted);
    if submitted.len() == 0 {
        assert(table.map_values(|row: ChildRow| rewritten(recipe_id, submitted, row)) =~= table);
    } else {
        let before = submitted.drop_last();
        let last = submitted.last();
        lemma_after_updates(store, kind, recipe_id, before, ids);
        let mid = store.run(updates_of(kind, recipe_id, before), ids);
        match last.id {
            Some(id) => {
                let update = update_of(kind, recipe_id, last).unwrap();
                assert(plan =~= updates_of(kind, recipe_id, before).push(update));
                lemma_run_push(store, updates_of(kind, recipe_id, before), update, ids);
                let after = store.run(plan, ids);
                assert forall|j: int| 0 <= j < table.len() implies after.children(kind)[j]
                    == rewritten(recipe_id, submitted, #[trigger] table[j]) by {
                    let row = table[j];
                    assert(mid.children(kind)[j] == rewritten(recipe_id, before, row));
                    lemma_written_keeps_identity(before, row);
                }
                assert(after.children(kind) =~= table.map_values(
                    |row: ChildRow| rewritten(recipe_id, submitted, row),
                ));
            },
            None => {
                assert(plan =~= updates_of(kind, recipe_id, before));
                assert(mid.children(kind) =~= table.map_values(
                    |row: ChildRow| rewritten(recipe_id, submitted, row),
                ));
            },
        }
    }
}

proof fn lemma_after_inserts(
    store: Store,
    kind: ChildKind,
    recipe_id: i64,
    submitted: Seq<ChildEdit>,
    ids: Seq<i64>,
)
    requires
        fresh_columns(submitted).len() <= ids.len(),
    ensures
        ({
            let plan = inserts_of(kind, recipe_id, submitted);
            let after = store.run(plan, ids);
            &&& rows_added_by(plan) == fresh_columns(submitted).len()
            &&& after.children(kind) == store.children(kind) + new_rows(
                recipe_id,
                fresh_columns(submitted),
                ids,
            )
            &&& after.recipes == store.recipes
            &&& forall|other: ChildKind| other != kind ==> after.children(other) == store.children(other)
        }),
    decreases submitted.len(),
{
    let table = store.children(kind);
    let plan = inserts_of(kind, recipe_id, submitted);
    if submitted.len() == 0 {
        assert(table + new_rows(recipe_id, fresh_columns(submitted), ids) =~= table);
    } else {
        let before = submitted.drop_last();
        let last = submitted.last();
        lemma_after_inserts(store, kind, recipe_id, before, ids);
        match last.id {
            Some(_) => {
                assert(plan =~= inserts_of(kind, recipe_id, before));
                assert(fresh_columns(submitted) =~= fresh_columns(before));
            },
            None => {
                let insert = insert_of(kind, recipe_id, last).unwrap();
                let earlier = inserts_of(kind, recipe_id, before);
                assert(plan =~= earlier.push(insert));
                lemma_run_push(store, earlier, insert, ids);
                let count = fresh_columns(before).len() as int;
                assert(fresh_columns(submitted) =~= fresh_columns(before).push(columns_of(last)));
                assert(ids.skip(count)[0] == ids[count]);
                assert(store.run(plan, ids).children(kind) =~= table + new_rows(
                    recipe_id,
                    fresh_columns(submitted),
                    ids,
                ));
            },
        }
    }
}

/// The table of a collection after a plan has run: the rows that the
/// recipe's delete left, each as the updates rewrite it, and behind them the
/// new rows.
proof fn lemma_reconciled_table(
    store: Store,
    kind: ChildKind,
    recipe_id: i64,
    submitted: Seq<ChildEdit>,
    ids: Seq<i64>,
)
    requires
        fresh_columns(submitted).len() <= ids.len(),
    ensures
        ({
            let existing = store.child_ids(kind, recipe_id);
            let gone = rows_to_delete(existing, submitted);
            let after = store.run(reconcile_plan(kind, recipe_id, existing, submitted), ids);
            &&& after.children(kind) == store.children(kind).filter(
                |row: ChildRow| !gone.contains(row.id),
            ).map_values(|row: ChildRow| rewritten(recipe_id, submitted, row)) + new_rows(
                recipe_id,
                fresh_columns(submitted),
                ids,
            )
            &&& store.run(deletes_of(kind, existing, submitted), ids).children_of(kind, recipe_id)
                == store.children_of(kind, recipe_id).filter(
                |row: ChildRow| names(submitted, row),
            )
            &&& after.recipes == store.recipes
            &&& forall|other: ChildKind| other != kind ==> after.children(other) == store.children(other)
        }),
{
    let existing = store.child_ids(kind, recipe_id);
    let deletes = deletes_of(kind, existing, submitted);
    let updates = updates_of(kind, recipe_id, submitted);
    let inserts = inserts_of(kind, recipe_id, submitted);
    lemma_after_deletes(store, kind, recipe_id, submitted, ids);
    let first = store.run(deletes, ids);
    lemma_after_updates(first, kind, recipe_id, submitted, ids);
    let second = first.run(updates, ids);
    lemma_after_inserts(second, kind, recipe_id, submitted, ids);
    assert(ids.skip(0) =~= ids);
    lemma_run_both(store, deletes, updates, ids);
    lemma_run_both(store, deletes + updates, inserts, ids);
}

/// Reconciliation converges. The children that the recipe owns after the
/// plan has run are: the rows that it owned before and that the list names,
/// in stored order, each under its old identifier with the position and
/// description of the last item that names it; and behind them one new row
/// per item without an identifier, in submitted order. Rows of the recipe
/// that the list does not name are gone, and an item that names no row of
/// the recipe changes no row. The recipes and the other collection are as
/// they were, and so, where no two rows of the table share an identifier,
/// are the children of every other recipe.
pub proof fn lemma_reconcile_converges(
    store: Store,
    kind: ChildKind,
    recipe_id: i64,
    submitted: Seq<ChildEdit>,
    ids: Seq<i64>,
)
    requires
        fresh_columns(submitted).len() <= ids.len(),
    ensures
        ({
            let existing = store.child_ids(kind, recipe_id);
            let after = store.run(reconcile_plan(kind, recipe_id, existing, submitted), ids);
            &&& after.children_of(kind, recipe_id) == store.children_of(kind, recipe_id).filter(
                |row: ChildRow| names(submitted, row),
            ).map_values(|row: ChildRow| written(submitted, row)) + new_rows(
                recipe_id,
                fresh_columns(submitted),
                ids,
            )
            &&& after.recipes == store.recipes
            &&& forall|other: ChildKind| other != kind ==> after.children(other) == store.children(other)
            &&& rows_unique(store.children(kind)) ==> forall|other: i64|
                other != recipe_id ==> #[trigger] after.children_of(kind, other)
                    == store.children_of(kind, other)
        }),
{
    let existing = store.child_ids(kind, recipe_id);
    let gone = rows_to_delete(existing, submitted);
    let after = store.run(reconcile_plan(kind, recipe_id, existing, submitted), ids);
    let table = store.children(kind);
    let kept = |row: ChildRow| !gone.contains(row.id);
    let mine = |row: ChildRow| row.recipe_id == recipe_id;
    let change = |row: ChildRow| rewritten(recipe_id, submitted, row);
    let left = table.filter(kept);
    let added = new_rows(recipe_id, fresh_columns(submitted), ids);
    lemma_reconciled_table(store, kind, recipe_id, submitted, ids);
    lemma_after_deletes(store, kind, recipe_id, submitted, ids);
    assert forall|i: int| 0 <= i < left.len() implies mine(change(#[trigger] left[i])) == mine(
        left[i],
    ) by {
        lemma_written_keeps_identity(submitted, left[i]);
    }
    lemma_filter_of_mapped(left, change, mine);
    Seq::filter_distributes_over_add(left.map_values(change), added, mine);
    lemma_filter_keeps_all(added, mine);
    let owned = left.filter(mine);
    assert(owned == store.children_of(kind, recipe_id).filter(
        |row: ChildRow| names(submitted, row),
    ));
    assert(owned.map_values(change) =~= owned.map_values(
        |row: ChildRow| written(submitted, row),
    )) by {
        assert forall|i: int| 0 <= i < owned.len() implies change(owned[i]) == written(
            submitted,
            #[trigger] owned[i],
        ) by {
            left.lemma_filter_pred(mine, i);
        }
    }
    if rows_unique(store.children(kind)) {
        assert forall|other: i64| other != recipe_id implies #[trigger] after.children_of(
            kind,
            other,
        ) == store.children_of(kind, other) by {
            lemma_reconcile_spares(store, kind, recipe_id, submitted, ids, other);
        }
    }
}

proof fn lemma_reconcile_spares(
    store: Store,
    kind: ChildKind,
    recipe_id: i64,
    submitted: Seq<ChildEdit>,
    ids: Seq<i64>,
    other: i64,
)
    requires
        fresh_columns(submitted).len() <= ids.len(),
        rows_unique(store.children(kind)),
        other != recipe_id,
    ensures
        store.run(
            reconcile_plan(kind, recipe_id, store.child_ids(kind, recipe_id), submitted),
            ids,
        ).children_of(kind, other) == store.children_of(kind, other),
{
    let existing = store.child_ids(kind, recipe_id);
    let gone = rows_to_delete(existing, submitted);
    let table = store.children(kind);
    let rows = store.children_of(kind, recipe_id);
    let kept = |row: ChildRow| !gone.contains(row.id);
    let mine = |row: ChildRow| row.recipe_id == recipe_id;
    let theirs = |row: ChildRow| row.recipe_id == other;
    let any = |row: ChildRow| true;
    let change = |row: ChildRow| rewritten(recipe_id, submitted, row);
    let left = table.filter(kept);
    let added = new_rows(recipe_id, fresh_columns(submitted), ids);
    lemma_reconciled_table(store, kind, recipe_id, submitted, ids);
    assert forall|i: int| 0 <= i < table.len() && theirs(#[trigger] table[i]) implies kept(
        table[i],
    ) by {
        if gone.contains(table[i].id) {
            existing.lemma_filter_contains_rev(
                |id: i64| !submitted_ids(submitted).contains(id),
                table[i].id,
            );
            let k = choose|k: int| 0 <= k < existing.len() && existing[k] == table[i].id;
            assert(rows[k].id == table[i].id);
            table.lemma_filter_pred(mine, k);
            assert(rows.contains(rows[k]));
            table.lemma_filter_contains_rev(mine, rows[k]);
            let j = choose|j: int| 0 <= j < table.len() && table[j] == rows[k];
            assert(table[j].recipe_id == recipe_id);
            assert(i != j);
            if i < j {
                assert(table[i].id != table[j].id);
            } else {
                assert(table[j].id != table[i].id);
            }
        }
    }
    lemma_filter_twice(table, kept, theirs, any);
    lemma_filter_keeps_all(table.filter(theirs), any);
    assert forall|i: int| 0 <= i < left.len() implies theirs(change(#[trigger] left[i])) == theirs(
        left[i],
    ) by {
        lemma_written_keeps_identity(submitted, left[i]);
    }
    lemma_filter_of_mapped(left, change, theirs);
    let spared = left.filter(theirs);
    assert(spared.map_values(change) =~= spared) by {
        assert forall|i: int| 0 <= i < spared.len() implies change(#[trigger] spared[i])
            == spared[i] by {
            left.lemma_filter_pred(theirs, i);
        }
    }
    Seq::filter_distributes_over_add(left.map_values(change), added, theirs);
    lemma_filter_drops_all(added, theirs);
    assert(spared + Seq::<ChildRow>::empty() =~= spared);
}

/// A plan adds one row per submitted item without an identifier.
pub proof fn lemma_rows_added_by_reconcile(
    kind: ChildKind,
    recipe_id: i64,
    existing: Seq<i64>,
    submitted: Seq<ChildEdit>,
)
    ensures
        rows_added_by(reconcile_plan(kind, recipe_id, existing, submitted)) == fresh_columns(
            submitted,
        ).len(),
{
    let deletes = deletes_of(kind, existing, submitted);
    let updates = updates_of(kind, recipe_id, submitted);
    let inserts = inserts_of(kind, recipe_id, submitted);
    lemma_counts(kind, recipe_id, submitted);
    if deletes.len() > 0 {
        let nothing = Store {
            recipes: Seq::empty(),
            ingredients: Seq::empty(),
            instructions: Seq::empty(),
        };
        assert(deletes =~= seq![deletes[0]]);
        lemma_run_one(nothing, deletes[0], Seq::empty());
    }
    lemma_rows_added_by_both(deletes, updates);
    lemma_rows_added_by_both(deletes + updates, inserts);
}

proof fn lemma_rows_added_by_both(first: Seq<StatementView>, second: Seq<StatementView>)
    ensures
        rows_added_by(first + second) == rows_added_by(first) + rows_added_by(second),
    decreases second.len(),
{
    if second.len() == 0 {
        assert(first + second =~= first);
    } else {
        lemma_rows_added_by_both(first, second.drop_last());
        assert((first + second).drop_last() =~= first + second.drop_last());
    }
}

proof fn lemma_counts(kind: ChildKind, recipe_id: i64, submitted: Seq<ChildEdit>)
    ensures
        rows_added_by(updates_of(kind, recipe_id, submitted)) == 0,
        rows_added_by(inserts_of(kind, recipe_id, submitted)) == fresh_columns(submitted).len(),
    decreases submitted.len(),
{
    if submitted.len() > 0 {
        let before = submitted.drop_last();
        let last = submitted.last();
        lemma_counts(kind, recipe_id, before);
        match last.id {
            Some(_) => {
                assert(updates_of(kind, recipe_id, submitted).drop_last() =~= updates_of(
                    kind,
                    recipe_id,
                    before,
                ));
            },
            None => {
                assert(inserts_of(kind, recipe_id, submitted).drop_last() =~= inserts_of(
                    kind,
                    recipe_id,
                    before,
                ));
            },
        }
    }
}

} // verus!
