//! Bringing the stored children of one recipe in line with a submitted list:
//! which rows to delete, which to change and which to add.

use crate::models::{
    ChildEdit, ChildRow, NewChild, UpdateIngredientRequest, UpdateInstructionRequest,
};
use crate::statements::{ChildColumns, ChildKind, Statement, StatementView};
use crate::sequences::{contains_id, lemma_filter_drops_all, lemma_filter_keeps_all};
use crate::store::{columns_of_row, lemma_run_push, new_rows, rows_added_by, Store};
use vstd::prelude::*;

verus! {

/// A submitted child that may name the stored row it stands for.
pub trait MaybeIdentifiable {
    /// The item as submitted.
    spec fn edit(&self) -> ChildEdit;

    fn id(&self) -> (id: Option<i64>)
        ensures
            id == self.edit().id,
    ;

    fn position(&self) -> (position: i64)
        ensures
            position == self.edit().position,
    ;

    fn description(&self) -> (description: String)
        ensures
            description@ == self.edit().description,
    ;
}

impl MaybeIdentifiable for UpdateIngredientRequest {
    open spec fn edit(&self) -> ChildEdit {
        self@
    }

    fn id(&self) -> (id: Option<i64>) {
        self.id
    }

    fn position(&self) -> (position: i64) {
        self.position
    }

    fn description(&self) -> (description: String) {
        self.description.clone()
    }
}

impl MaybeIdentifiable for UpdateInstructionRequest {
    open spec fn edit(&self) -> ChildEdit {
        self@
    }

    fn id(&self) -> (id: Option<i64>) {
        self.id
    }

    fn position(&self) -> (position: i64) {
        self.position
    }

    fn description(&self) -> (description: String) {
        self.description.clone()
    }
}

/// The submitted items of a list, in order.
pub open spec fn edits<T: MaybeIdentifiable>(items: Seq<T>) -> Seq<ChildEdit> {
    items.map_values(|item: T| item.edit())
}

/// The identifiers that a submitted list names.
pub open spec fn submitted_ids(submitted: Seq<ChildEdit>) -> Set<i64> {
    Set::new(
        |id: i64| exists|i: int| 0 <= i < submitted.len() && (#[trigger] submitted[i]).id == Some(id),
    )
}

/// The stored identifiers that a submitted list no longer names, in stored
/// order.
pub open spec fn rows_to_delete(existing: Seq<i64>, submitted: Seq<ChildEdit>) -> Seq<i64> {
    existing.filter(|id: i64| !submitted_ids(submitted).contains(id))
}

/// The columns that a submitted item sets.
pub open spec fn columns_of(item: ChildEdit) -> NewChild {
    NewChild { position: item.position, description: item.description }
}

/// The change that a submitted item with an identifier asks for: of the row
/// of `recipe_id` with that identifier, and of no row of another recipe.
pub open spec fn update_of(kind: ChildKind, recipe_id: i64, item: ChildEdit) -> Option<
    StatementView,
> {
    match item.id {
        Some(id) => Some(
            StatementView::UpdateChild { kind, recipe_id, id, item: columns_of(item) },
        ),
        None => None,
    }
}

/// The row that a submitted item without an identifier asks for.
pub open spec fn insert_of(kind: ChildKind, recipe_id: i64, item: ChildEdit) -> Option<
    StatementView,
> {
    match item.id {
        Some(_) => None,
        None => Some(StatementView::InsertChild { kind, recipe_id, item: columns_of(item) }),
    }
}

/// One delete of all rows that are no longer named; none if there is no such
/// row.
pub open spec fn deletes_of(kind: ChildKind, existing: Seq<i64>, submitted: Seq<ChildEdit>) -> Seq<
    StatementView,
> {
    let gone = rows_to_delete(existing, submitted);
    if gone.len() == 0 {
        Seq::empty()
    } else {
        seq![StatementView::DeleteChildren { kind, ids: gone }]
    }
}

/// One update per item with an identifier, in submitted order, whether or not
/// the recipe has a row with that identifier.
pub open spec fn updates_of(kind: ChildKind, recipe_id: i64, submitted: Seq<ChildEdit>) -> Seq<
    StatementView,
> {
    submitted.filter_map(|item: ChildEdit| update_of(kind, recipe_id, item))
}

/// One insert per item without an identifier, in submitted order.
pub open spec fn inserts_of(kind: ChildKind, recipe_id: i64, submitted: Seq<ChildEdit>) -> Seq<
    StatementView,
> {
    submitted.filter_map(|item: ChildEdit| insert_of(kind, recipe_id, item))
}

/// The writes that make the stored children of `recipe_id` match `submitted`:
/// the delete, then the updates, then the inserts.
pub open spec fn reconcile_plan(
    kind: ChildKind,
    recipe_id: i64,
    existing: Seq<i64>,
    submitted: Seq<ChildEdit>,
) -> Seq<StatementView> {
    deletes_of(kind, existing, submitted) + updates_of(kind, recipe_id, submitted) + inserts_of(
        kind,
        recipe_id,
        submitted,
    )
}

/// The identifiers of `stored` that no item of `updated` carries, in the
/// order of `stored`.
pub fn items_to_delete<T: MaybeIdentifiable>(stored: Vec<i64>, updated: &[T]) -> (gone: Vec<i64>)
    ensures
        gone@ == rows_to_delete(stored@, edits(updated@)),
{
    let ghost submitted = edits(updated@);
    let mut updated_ids: Vec<i64> = Vec::new();
    let mut i: usize = 0;
    while i < updated.len()
        invariant
            0 <= i <= updated.len(),
            submitted == edits(updated@),
            forall|id: i64|
                updated_ids@.contains(id) <==> exists|j: int|
                    0 <= j < i && (#[trigger] submitted[j]).id == Some(id),
        decreases updated.len() - i,
    {
        let ghost before = updated_ids@;
        match updated[i].id() {
            Some(id) => {
                updated_ids.push(id);
                assert forall|other: i64|
                    updated_ids@.contains(other) <==> exists|j: int|
                        0 <= j < i + 1 && (#[trigger] submitted[j]).id == Some(other) by {
                    if updated_ids@.contains(other) {
                        let k = choose|k: int| 0 <= k < updated_ids@.len() && updated_ids@[k] == other;
                        if k < before.len() {
                            assert(before[k] == other);
                            assert(before.contains(other));
                        } else {
                            assert(submitted[i as int].id == Some(other));
                        }
                    }
                    if exists|j: int| 0 <= j < i + 1 && (#[trigger] submitted[j]).id == Some(other) {
                        let j = choose|j: int|
                            0 <= j < i + 1 && (#[trigger] submitted[j]).id == Some(other);
                        if j < i {
                            assert(before.contains(other));
                            let k = choose|k: int| 0 <= k < before.len() && before[k] == other;
                            assert(updated_ids@[k] == other);
                        } else {
                            assert(updated_ids@[before.len() as int] == other);
                        }
                    }
                }
            },
            None => {
                assert forall|other: i64|
                    updated_ids@.contains(other) <==> exists|j: int|
                        0 <= j < i + 1 && (#[trigger] submitted[j]).id == Some(other) by {
                    if exists|j: int| 0 <= j < i + 1 && (#[trigger] submitted[j]).id == Some(other) {
                        let j = choose|j: int|
                            0 <= j < i + 1 && (#[trigger] submitted[j]).id == Some(other);
                        assert(j < i);
                    }
                }
            },
        }
        i += 1;
    }
    let ghost stays = |id: i64| !submitted_ids(submitted).contains(id);
    assert forall|id: i64| updated_ids@.contains(id) <==> !stays(id) by {}
    let mut gone: Vec<i64> = Vec::new();
    let mut k: usize = 0;
    while k < stored.len()
        invariant
            0 <= k <= stored.len(),
            stays == (|id: i64| !submitted_ids(submitted).contains(id)),
            forall|id: i64| updated_ids@.contains(id) <==> !stays(id),
            gone@ == stored@.take(k as int).filter(stays),
        decreases stored.len() - k,
    {
        let id = stored[k];
        proof {
            reveal(Seq::filter);
            assert(stored@.take(k + 1).drop_last() =~= stored@.take(k as int));
            assert(stored@.take(k + 1).last() == id);
        }
        if !contains_id(&updated_ids, id) {
            gone.push(id);
        }
        k += 1;
    }
    assert(stored@.take(k as int) =~= stored@);
    gone
}

/// The writes that bring the stored children of one recipe in line with a
/// submitted list. `existing` holds the identifiers of the rows stored for
/// the recipe. Rows that the list does not name are deleted in one
/// statement; every item with an identifier is written to its row; every
/// item without one becomes a new row of `recipe_id`.
pub fn reconcile<T: MaybeIdentifiable>(
    kind: ChildKind,
    recipe_id: i64,
    existing: Vec<i64>,
    submitted: &[T],
) -> (plan: Vec<Statement>)
    ensures
        plan.deep_view() == reconcile_plan(kind, recipe_id, existing@, edits(submitted@)),
{
    let ghost items = edits(submitted@);
    let ghost deletes = deletes_of(kind, existing@, items);
    let mut plan: Vec<Statement> = Vec::new();
    let gone = items_to_delete(existing, submitted);
    if gone.len() > 0 {
        plan.push(Statement::DeleteChildren { kind, ids: gone });
    }
    assert(plan.deep_view() =~= deletes);
    let mut i: usize = 0;
    while i < submitted.len()
        invariant
            0 <= i <= submitted.len(),
            items == edits(submitted@),
            plan.deep_view() == deletes + updates_of(kind, recipe_id, items.take(i as int)),
        decreases submitted.len() - i,
    {
        let ghost before = plan.deep_view();
        proof {
            assert(items.take(i + 1).drop_last() =~= items.take(i as int));
            assert(items.take(i + 1).last() == submitted@[i as int].edit());
        }
        match submitted[i].id() {
            Some(id) => {
                let child = ChildColumns {
                    position: submitted[i].position(),
                    description: submitted[i].description(),
                };
                plan.push(Statement::UpdateChild { kind, recipe_id, id, child });
                assert(plan.deep_view() =~= before.push(
                    update_of(kind, recipe_id, submitted@[i as int].edit()).unwrap(),
                ));
            },
            None => {},
        }
        i += 1;
        assert(plan.deep_view() =~= deletes + updates_of(kind, recipe_id, items.take(i as int)));
    }
    assert(items.take(i as int) =~= items);
    let ghost updates = updates_of(kind, recipe_id, items);
    let mut j: usize = 0;
    while j < submitted.len()
        invariant
            0 <= j <= submitted.len(),
            items == edits(submitted@),
            plan.deep_view() == deletes + updates + inserts_of(kind, recipe_id, items.take(j as int)),
        decreases submitted.len() - j,
    {
        let ghost before = plan.deep_view();
        proof {
            assert(items.take(j + 1).drop_last() =~= items.take(j as int));
            assert(items.take(j + 1).last() == submitted@[j as int].edit());
        }
        match submitted[j].id() {
            Some(_) => {},
            None => {
                let child = ChildColumns {
                    position: submitted[j].position(),
                    description: submitted[j].description(),
                };
                plan.push(Statement::InsertChild { kind, recipe_id, child });
                assert(plan.deep_view() =~= before.push(
                    insert_of(kind, recipe_id, submitted@[j as int].edit()).unwrap(),
                ));
            },
        }
        j += 1;
        assert(plan.deep_view() =~= deletes + updates + inserts_of(
            kind,
            recipe_id,
            items.take(j as int),
        ));
    }
    assert(items.take(j as int) =~= items);
    plan
}

/// Whether every item of a list carries an identifier.
pub open spec fn all_identified(submitted: Seq<ChildEdit>) -> bool {
    forall|i: int| 0 <= i < submitted.len() ==> (#[trigger] submitted[i]).id is Some
}

/// Whether no item of a list carries an identifier.
pub open spec fn none_identified(submitted: Seq<ChildEdit>) -> bool {
    forall|i: int| 0 <= i < submitted.len() ==> (#[trigger] submitted[i]).id is None
}

/// Whether every stored row that an item names already holds the item's
/// position and description.
pub open spec fn rows_hold(rows: Seq<ChildRow>, submitted: Seq<ChildEdit>) -> bool {
    forall|i: int, j: int|
        0 <= i < submitted.len() && 0 <= j < rows.len() && (#[trigger] submitted[i]).id == Some(
            (#[trigger] rows[j]).id,
        ) ==> columns_of_row(rows[j]) == columns_of(submitted[i])
}

proof fn lemma_updates_only_when_all_identified(
    kind: ChildKind,
    recipe_id: i64,
    submitted: Seq<ChildEdit>,
)
    requires
        all_identified(submitted),
    ensures
        inserts_of(kind, recipe_id, submitted) == Seq::<StatementView>::empty(),
        updates_of(kind, recipe_id, submitted).len() == submitted.len(),
        forall|i: int|
            0 <= i < submitted.len() ==> #[trigger] updates_of(kind, recipe_id, submitted)[i] == update_of(
                kind,
                recipe_id,
                submitted[i],
            ).unwrap(),
    decreases submitted.len(),
{
    if submitted.len() > 0 {
        lemma_updates_only_when_all_identified(kind, recipe_id, submitted.drop_last());
        assert(submitted.last().id is Some);
    }
}

proof fn lemma_inserts_only_when_none_identified(
    kind: ChildKind,
    recipe_id: i64,
    submitted: Seq<ChildEdit>,
)
    requires
        none_identified(submitted),
    ensures
        updates_of(kind, recipe_id, submitted) == Seq::<StatementView>::empty(),
        inserts_of(kind, recipe_id, submitted).len() == submitted.len(),
        rows_added_by(inserts_of(kind, recipe_id, submitted)) == submitted.len(),
        forall|i: int|
            0 <= i < submitted.len() ==> #[trigger] inserts_of(kind, recipe_id, submitted)[i]
                == insert_of(kind, recipe_id, submitted[i]).unwrap(),
    decreases submitted.len(),
{
    if submitted.len() > 0 {
        let before = submitted.drop_last();
        lemma_inserts_only_when_none_identified(kind, recipe_id, before);
        assert(submitted.last().id is None);
        let plan = inserts_of(kind, recipe_id, submitted);
        assert(plan.drop_last() =~= inserts_of(kind, recipe_id, before));
    }
}

/// Reconciling against the empty list plans one delete of every stored child
/// of the recipe, no update and no insert; after it the recipe owns no child
/// of that collection, and the other tables are as they were. Where no two
/// rows of the table share an identifier, the children of every other recipe
/// are as they were too.
pub proof fn lemma_empty_list_removes_all(
    store: Store,
    kind: ChildKind,
    recipe_id: i64,
    ids: Seq<i64>,
)
    ensures
        ({
            let existing = store.child_ids(kind, recipe_id);
            let plan = reconcile_plan(kind, recipe_id, existing, Seq::empty());
            let after = store.run(plan, ids);
            &&& rows_to_delete(existing, Seq::empty()) == existing
            &&& plan == deletes_of(kind, existing, Seq::empty())
            &&& updates_of(kind, recipe_id, Seq::empty()) == Seq::<StatementView>::empty()
            &&& inserts_of(kind, recipe_id, Seq::empty()) == Seq::<StatementView>::empty()
            &&& after.children_of(kind, recipe_id) == Seq::<ChildRow>::empty()
            &&& after.recipes == store.recipes
            &&& forall|other: ChildKind| other != kind ==> after.children(other) == store.children(other)
            &&& crate::store::rows_unique(store.children(kind)) ==> forall|other: i64|
                other != recipe_id ==> #[trigger] after.children_of(kind, other)
                    == store.children_of(kind, other)
        }),
{
    let nothing = Seq::<ChildEdit>::empty();
    crate::convergence::lemma_reconcile_converges(store, kind, recipe_id, nothing, ids);
    let existing = store.child_ids(kind, recipe_id);
    let stays = |id: i64| !submitted_ids(nothing).contains(id);
    lemma_filter_keeps_all(existing, stays);
    let plan = reconcile_plan(kind, recipe_id, existing, nothing);
    assert(plan =~= deletes_of(kind, existing, nothing));
    let owned = |row: ChildRow| row.recipe_id == recipe_id;
    if existing.len() == 0 {
        assert(plan =~= Seq::<StatementView>::empty());
        assert(store.children_of(kind, recipe_id).len() == 0);
        assert(store.children_of(kind, recipe_id) =~= Seq::<ChildRow>::empty());
    } else {
        let delete = StatementView::DeleteChildren { kind, ids: existing };
        assert(plan =~= Seq::<StatementView>::empty().push(delete));
        lemma_run_push(store, Seq::empty(), delete, ids);
        let rows = store.children(kind);
        let kept = rows.filter(|row: ChildRow| !existing.contains(row.id));
        assert(store.run(plan, ids).children(kind) == kept);
        assert forall|i: int| 0 <= i < kept.len() implies !owned(#[trigger] kept[i]) by {
            let row = kept[i];
            rows.lemma_filter_pred(|row: ChildRow| !existing.contains(row.id), i);
            if owned(row) {
                rows.lemma_filter_contains_rev(|row: ChildRow| !existing.contains(row.id), row);
                let j = choose|j: int| 0 <= j < rows.len() && rows[j] == row;
                rows.lemma_filter_contains(owned, j);
                let mine = rows.filter(owned);
                let k = choose|k: int| 0 <= k < mine.len() && mine[k] == row;
                assert(existing[k] == row.id);
                assert(existing.contains(row.id));
            }
        }
        lemma_filter_drops_all(kept, owned);
    }
}

/// Reconciling a list without identifiers against a recipe without stored
/// children plans one insert per item, no delete and no update; after it the
/// table holds, behind its old rows, one new row per item, in submitted
/// order.
pub proof fn lemma_new_items_are_inserted(
    store: Store,
    kind: ChildKind,
    recipe_id: i64,
    submitted: Seq<ChildEdit>,
    ids: Seq<i64>,
)
    requires
        none_identified(submitted),
        ids.len() >= submitted.len(),
    ensures
        ({
            let plan = reconcile_plan(kind, recipe_id, Seq::empty(), submitted);
            let after = store.run(plan, ids);
            &&& plan == inserts_of(kind, recipe_id, submitted)
            &&& plan.len() == submitted.len()
            &&& deletes_of(kind, Seq::empty(), submitted) == Seq::<StatementView>::empty()
            &&& updates_of(kind, recipe_id, submitted) == Seq::<StatementView>::empty()
            &&& forall|i: int|
                0 <= i < submitted.len() ==> #[trigger] plan[i] == (StatementView::InsertChild {
                    kind,
                    recipe_id,
                    item: columns_of(submitted[i]),
                })
            &&& after.children(kind) == store.children(kind) + new_rows(
                recipe_id,
                submitted.map_values(|item: ChildEdit| columns_of(item)),
                ids,
            )
            &&& after.recipes == store.recipes
            &&& forall|other: ChildKind| other != kind ==> after.children(other) == store.children(other)
        }),
    decreases submitted.len(),
{
    reveal(Seq::filter);
    let plan = reconcile_plan(kind, recipe_id, Seq::empty(), submitted);
    lemma_inserts_only_when_none_identified(kind, recipe_id, submitted);
    assert(plan =~= inserts_of(kind, recipe_id, submitted));
    let items = submitted.map_values(|item: ChildEdit| columns_of(item));
    if submitted.len() == 0 {
        assert(store.children(kind) + new_rows(recipe_id, items, ids) =~= store.children(kind));
    } else {
        let before = submitted.drop_last();
        let last = submitted.last();
        lemma_new_items_are_inserted(store, kind, recipe_id, before, ids);
        lemma_inserts_only_when_none_identified(kind, recipe_id, before);
        let plan_before = inserts_of(kind, recipe_id, before);
        let insert = insert_of(kind, recipe_id, last).unwrap();
        assert(plan =~= plan_before.push(insert));
        lemma_run_push(store, plan_before, insert, ids);
        let items_before = before.map_values(|item: ChildEdit| columns_of(item));
        assert(rows_added_by(plan_before) == before.len());
        assert(ids.skip(before.len() as int)[0] == ids[before.len() as int]);
        assert(store.run(plan, ids).children(kind) =~= store.children(kind) + new_rows(
            recipe_id,
            items,
            ids,
        ));
    }
}

/// Reconciling a list that states what is stored changes nothing. Where
/// every item carries an identifier, every stored identifier is named, and
/// every row that an item names already holds the item's position and
/// description, the plan consists of the updates alone and leaves the store
/// as it was, however often it is run.
pub proof fn lemma_matching_list_changes_nothing(
    store: Store,
    kind: ChildKind,
    recipe_id: i64,
    existing: Seq<i64>,
    submitted: Seq<ChildEdit>,
    ids: Seq<i64>,
    ids_again: Seq<i64>,
)
    requires
        all_identified(submitted),
        forall|j: int| 0 <= j < existing.len() ==> submitted_ids(submitted).contains(#[trigger] existing[j]),
        rows_hold(store.children(kind), submitted),
    ensures
        ({
            let plan = reconcile_plan(kind, recipe_id, existing, submitted);
            &&& plan == updates_of(kind, recipe_id, submitted)
            &&& plan.len() == submitted.len()
            &&& deletes_of(kind, existing, submitted) == Seq::<StatementView>::empty()
            &&& inserts_of(kind, recipe_id, submitted) == Seq::<StatementView>::empty()
            &&& store.run(plan, ids) == store
            &&& store.run(plan, ids).run(plan, ids_again) == store
        }),
{
    let plan = reconcile_plan(kind, recipe_id, existing, submitted);
    lemma_updates_only_when_all_identified(kind, recipe_id, submitted);
    lemma_filter_drops_all(existing, |id: i64| !submitted_ids(submitted).contains(id));
    assert(plan =~= updates_of(kind, recipe_id, submitted));
    lemma_updates_keep_matching_rows(store, kind, recipe_id, submitted, ids);
    lemma_updates_keep_matching_rows(store, kind, recipe_id, submitted, ids_again);
}

proof fn lemma_updates_keep_matching_rows(
    store: Store,
    kind: ChildKind,
    recipe_id: i64,
    submitted: Seq<ChildEdit>,
    ids: Seq<i64>,
)
    requires
        rows_hold(store.children(kind), submitted),
    ensures
        store.run(updates_of(kind, recipe_id, submitted), ids) == store,
    decreases submitted.len(),
{
    if submitted.len() > 0 {
        let before = submitted.drop_last();
        let last = submitted.last();
        assert forall|i: int, j: int|
            0 <= i < before.len() && 0 <= j < store.children(kind).len() && (#[trigger] before[i]).id
                == Some((#[trigger] store.children(kind)[j]).id) implies columns_of_row(
            store.children(kind)[j],
        ) == columns_of(before[i]) by {
            assert(before[i] == submitted[i]);
        }
        lemma_updates_keep_matching_rows(store, kind, recipe_id, before, ids);
        match last.id {
            Some(id) => {
                let update = update_of(kind, recipe_id, last).unwrap();
                assert(updates_of(kind, recipe_id, submitted) =~= updates_of(kind, recipe_id, before).push(update));
                lemma_run_push(store, updates_of(kind, recipe_id, before), update, ids);
                let rows = store.children(kind);
                assert forall|j: int| 0 <= j < rows.len() && rows[j].id == id implies rows[j]
                    == crate::store::child_row(id, rows[j].recipe_id, columns_of(last)) by {
                    assert(submitted[submitted.len() - 1].id == Some(rows[j].id));
                }
                assert(store.apply(update, ids.skip(rows_added_by(updates_of(kind, recipe_id, before)) as int)).children(
                    kind,
                ) =~= rows);
            },
            None => {
                assert(updates_of(kind, recipe_id, submitted) =~= updates_of(kind, recipe_id, before));
            },
        }
    }
}

} // verus!
