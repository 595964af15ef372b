//! A model of the stored tables and of what each statement does to them.
//! Nothing here runs: the model gives the statements a meaning against which
//! the plans of this library are proved.

use crate::models::{BaseRow, ChildRow, NewChild, RecipeView};
use crate::sequences::{distinct_by, lemma_filter_keeps_distinct};
use crate::statements::{ChildKind, StatementView};
use vstd::prelude::*;

verus! {

/// The three tables, each in stored order.
pub struct Store {
    pub recipes: Seq<BaseRow>,
    pub ingredients: Seq<ChildRow>,
    pub instructions: Seq<ChildRow>,
}

/// The child row that the store makes of submitted columns.
pub open spec fn child_row(id: i64, recipe_id: i64, item: NewChild) -> ChildRow {
    ChildRow { id, recipe_id, position: item.position, description: item.description }
}

/// The rows added for `items`, the `i`-th of them under the `i`-th of `ids`.
pub open spec fn new_rows(recipe_id: i64, items: Seq<NewChild>, ids: Seq<i64>) -> Seq<ChildRow> {
    Seq::new(items.len(), |i: int| child_row(ids[i], recipe_id, items[i]))
}

/// Whether no two rows of a child table have the same identifier.
pub open spec fn rows_unique(rows: Seq<ChildRow>) -> bool {
    distinct_by(rows, |row: ChildRow| row.id)
}

/// Whether the store can give `ids` to `count` new rows of a table: each is
/// new to the table and given once.
pub open spec fn fresh_for(rows: Seq<ChildRow>, ids: Seq<i64>, count: nat) -> bool {
    &&& count <= ids.len()
    &&& forall|i: int, j: int| #![trigger ids[i], ids[j]] 0 <= i < j < count ==> ids[i] != ids[j]
    &&& forall|i: int, k: int|
        #![trigger ids[i], rows[k]]
        0 <= i < count && 0 <= k < rows.len() ==> rows[k].id != ids[i]
}

/// The columns of a stored child.
pub open spec fn columns_of_row(row: ChildRow) -> NewChild {
    NewChild { position: row.position, description: row.description }
}

/// How many rows a statement adds, hence how many identifiers the store
/// assigns while it runs.
pub open spec fn rows_added(statement: StatementView) -> nat {
    match statement {
        StatementView::InsertRecipe { .. } => 1,
        StatementView::InsertChildren { items, .. } => items.len(),
        StatementView::InsertChild { .. } => 1,
        _ => 0,
    }
}

/// How many rows the statements of a plan add together.
pub open spec fn rows_added_by(plan: Seq<StatementView>) -> nat
    decreases plan.len(),
{
    if plan.len() == 0 {
        0
    } else {
        rows_added_by(plan.drop_last()) + rows_added(plan.last())
    }
}

impl Store {
    /// The table of one child collection.
    pub open spec fn children(self, kind: ChildKind) -> Seq<ChildRow> {
        match kind {
            ChildKind::Ingredient => self.ingredients,
            ChildKind::Instruction => self.instructions,
        }
    }

    /// The store with one child table replaced.
    pub open spec fn with_children(self, kind: ChildKind, rows: Seq<ChildRow>) -> Store {
        match kind {
            ChildKind::Ingredient => Store { ingredients: rows, ..self },
            ChildKind::Instruction => Store { instructions: rows, ..self },
        }
    }

    /// The children that one recipe owns, in stored order.
    pub open spec fn children_of(self, kind: ChildKind, recipe_id: i64) -> Seq<ChildRow> {
        self.children(kind).filter(|row: ChildRow| row.recipe_id == recipe_id)
    }

    /// The identifiers of the children that one recipe owns, in stored order.
    pub open spec fn child_ids(self, kind: ChildKind, recipe_id: i64) -> Seq<i64> {
        self.children_of(kind, recipe_id).map_values(|row: ChildRow| row.id)
    }

    /// The recipe row with an identifier, if there is one.
    pub open spec fn find_recipe(self, id: i64) -> Option<BaseRow> {
        let found = self.recipes.filter(|row: BaseRow| row.id == id);
        if found.len() == 0 {
            None
        } else {
            Some(found[0])
        }
    }

    /// Whether no two rows of a table have the same identifier.
    pub open spec fn ids_unique(self) -> bool {
        &&& distinct_by(self.recipes, |row: BaseRow| row.id)
        &&& rows_unique(self.ingredients)
        &&& rows_unique(self.instructions)
    }

    /// Whether `ids` are identifiers that the store can assign to the rows
    /// that a statement adds.
    pub open spec fn can_assign(self, statement: StatementView, ids: Seq<i64>) -> bool {
        match statement {
            StatementView::InsertRecipe { .. } => ids.len() > 0 && forall|k: int|
                0 <= k < self.recipes.len() ==> (#[trigger] self.recipes[k]).id != ids[0],
            StatementView::InsertChildren { kind, items, .. } => fresh_for(
                self.children(kind),
                ids,
                items.len(),
            ),
            StatementView::InsertChild { kind, .. } => fresh_for(self.children(kind), ids, 1),
            _ => true,
        }
    }

    /// Whether every child belongs to a stored recipe.
    pub open spec fn children_have_parents(self) -> bool {
        forall|kind: ChildKind, i: int|
            0 <= i < self.children(kind).len() ==> self.find_recipe(
                (#[trigger] self.children(kind)[i]).recipe_id,
            ) is Some
    }

    /// The recipe with its children, if a row with the identifier is stored.
    pub open spec fn load(self, id: i64) -> Option<RecipeView> {
        match self.find_recipe(id) {
            None => None,
            Some(base) => Some(
                RecipeView {
                    base,
                    ingredients: self.children_of(ChildKind::Ingredient, id),
                    instructions: self.children_of(ChildKind::Instruction, id),
                },
            ),
        }
    }

    /// The store after one statement. `ids` are the identifiers that the
    /// store assigns to the rows that the statement adds, in order.
    pub open spec fn apply(self, statement: StatementView, ids: Seq<i64>) -> Store {
        match statement {
            StatementView::InsertRecipe { fields } => Store {
                recipes: self.recipes.push(BaseRow { id: ids[0], fields }),
                ..self
            },
            StatementView::InsertChildren { kind, recipe_id, items } => self.with_children(
                kind,
                self.children(kind) + new_rows(recipe_id, items, ids),
            ),
            StatementView::UpdateRecipe { id, fields } => Store {
                recipes: self.recipes.map_values(
                    |row: BaseRow|
                        if row.id == id {
                            BaseRow { id, fields }
                        } else {
                            row
                        },
                ),
                ..self
            },
            StatementView::DeleteChildren { kind, ids: gone } => self.with_children(
                kind,
                self.children(kind).filter(|row: ChildRow| !gone.contains(row.id)),
            ),
            StatementView::UpdateChild { kind, recipe_id, id, item } => self.with_children(
                kind,
                self.children(kind).map_values(
                    |row: ChildRow|
                        if row.id == id && row.recipe_id == recipe_id {
                            child_row(id, recipe_id, item)
                        } else {
                            row
                        },
                ),
            ),
            StatementView::InsertChild { kind, recipe_id, item } => self.with_children(
                kind,
                self.children(kind).push(child_row(ids[0], recipe_id, item)),
            ),
            StatementView::DeleteRecipe { id } => Store {
                recipes: self.recipes.filter(|row: BaseRow| row.id != id),
                ingredients: self.ingredients.filter(|row: ChildRow| row.recipe_id != id),
                instructions: self.instructions.filter(|row: ChildRow| row.recipe_id != id),
            },
        }
    }

    /// The store after the statements of a plan, run in order. `ids` are the
    /// identifiers that the store assigns, in the order in which rows are
    /// added.
    pub open spec fn run(self, plan: Seq<StatementView>, ids: Seq<i64>) -> Store
        decreases plan.len(),
    {
        if plan.len() == 0 {
            self
        } else {
            let before = plan.drop_last();
            self.run(before, ids).apply(plan.last(), ids.skip(rows_added_by(before) as int))
        }
    }
}

/// Running a plan with one more statement is running the plan and then the
/// statement, which gets the identifiers that the plan left.
pub proof fn lemma_run_push(store: Store, plan: Seq<StatementView>, last: StatementView, ids: Seq<i64>)
    ensures
        store.run(plan.push(last), ids) == store.run(plan, ids).apply(
            last,
            ids.skip(rows_added_by(plan) as int),
        ),
        rows_added_by(plan.push(last)) == rows_added_by(plan) + rows_added(last),
{
    assert(plan.push(last).drop_last() =~= plan);
}

/// Running a plan of one statement is applying the statement.
pub proof fn lemma_run_one(store: Store, statement: StatementView, ids: Seq<i64>)
    ensures
        store.run(seq![statement], ids) == store.apply(statement, ids),
        rows_added_by(seq![statement]) == rows_added(statement),
{
    let nothing = Seq::<StatementView>::empty();
    assert(seq![statement] =~= nothing.push(statement));
    lemma_run_push(store, nothing, statement, ids);
    assert(store.run(nothing, ids) == store);
    assert(rows_added_by(nothing) == 0);
    assert(ids.skip(0) =~= ids);
}

/// Running one plan after another is running the two as one, where the
/// store has an identifier for every row that they add.
pub proof fn lemma_run_both(
    store: Store,
    first: Seq<StatementView>,
    second: Seq<StatementView>,
    ids: Seq<i64>,
)
    requires
        rows_added_by(first) + rows_added_by(second) <= ids.len(),
    ensures
        store.run(first + second, ids) == store.run(first, ids).run(
            second,
            ids.skip(rows_added_by(first) as int),
        ),
        rows_added_by(first + second) == rows_added_by(first) + rows_added_by(second),
    decreases second.len(),
{
    let left = ids.skip(rows_added_by(first) as int);
    if second.len() == 0 {
        assert(first + second =~= first);
    } else {
        let before = second.drop_last();
        let last = second.last();
        lemma_run_both(store, first, before, ids);
        assert(first + second =~= (first + before).push(last));
        lemma_run_push(store, first + before, last, ids);
        assert(second =~= before.push(last));
        lemma_run_push(store.run(first, ids), before, last, left);
        assert(left.skip(rows_added_by(before) as int) =~= ids.skip(
            (rows_added_by(first) + rows_added_by(before)) as int,
        ));
    }
}

/// Identifiers stay unique. Where no two rows of a table share an
/// identifier and the store assigns new identifiers to the rows that a
/// statement adds, no two rows share one afterwards.
pub proof fn lemma_ids_stay_unique(store: Store, statement: StatementView, ids: Seq<i64>)
    requires
        store.ids_unique(),
        store.can_assign(statement, ids),
    ensures
        store.apply(statement, ids).ids_unique(),
{
    let after = store.apply(statement, ids);
    let recipe_key = |row: BaseRow| row.id;
    let key = |row: ChildRow| row.id;
    match statement {
        StatementView::InsertRecipe { fields } => {
            let rows = after.recipes;
            assert forall|i: int, j: int| #![trigger rows[i], rows[j]] 0 <= i < j < rows.len() implies recipe_key(
                rows[i],
            ) != recipe_key(rows[j]) by {
                assert(rows[i] == store.recipes[i]);
                if j < store.recipes.len() {
                    assert(rows[j] == store.recipes[j]);
                }
            }
        },
        StatementView::InsertChildren { kind, recipe_id, items } => {
            let old_rows = store.children(kind);
            let rows = after.children(kind);
            assert forall|i: int, j: int| #![trigger rows[i], rows[j]] 0 <= i < j < rows.len() implies key(
                rows[i],
            ) != key(rows[j]) by {
                let n = old_rows.len();
                if j < n {
                    assert(rows[i] == old_rows[i] && rows[j] == old_rows[j]);
                } else if i < n {
                    assert(rows[i] == old_rows[i]);
                    assert(rows[j].id == ids[j - n]);
                } else {
                    assert(rows[i].id == ids[i - n] && rows[j].id == ids[j - n]);
                }
            }
        },
        StatementView::UpdateRecipe { id, fields } => {
            let rows = after.recipes;
            assert forall|i: int, j: int| #![trigger rows[i], rows[j]] 0 <= i < j < rows.len() implies recipe_key(
                rows[i],
            ) != recipe_key(rows[j]) by {
                assert(rows[i].id == store.recipes[i].id && rows[j].id == store.recipes[j].id);
            }
        },
        StatementView::DeleteChildren { kind, ids: gone } => {
            lemma_filter_keeps_distinct(
                store.children(kind),
                |row: ChildRow| !gone.contains(row.id),
                key,
            );
        },
        StatementView::UpdateChild { kind, recipe_id, id, item } => {
            let old_rows = store.children(kind);
            let rows = after.children(kind);
            assert forall|i: int, j: int| #![trigger rows[i], rows[j]] 0 <= i < j < rows.len() implies key(
                rows[i],
            ) != key(rows[j]) by {
                assert(rows[i].id == old_rows[i].id && rows[j].id == old_rows[j].id);
            }
        },
        StatementView::InsertChild { kind, recipe_id, item } => {
            let old_rows = store.children(kind);
            let rows = after.children(kind);
            assert forall|i: int, j: int| #![trigger rows[i], rows[j]] 0 <= i < j < rows.len() implies key(
                rows[i],
            ) != key(rows[j]) by {
                assert(rows[i] == old_rows[i]);
                if j < old_rows.len() {
                    assert(rows[j] == old_rows[j]);
                } else {
                    assert(rows[j].id == ids[0]);
                }
            }
        },
        StatementView::DeleteRecipe { id } => {
            lemma_filter_keeps_distinct(store.recipes, |row: BaseRow| row.id != id, recipe_key);
            lemma_filter_keeps_distinct(store.ingredients, |row: ChildRow| row.recipe_id != id, key);
            lemma_filter_keeps_distinct(
                store.instructions,
                |row: ChildRow| row.recipe_id != id,
                key,
            );
        },
    }
}

} // verus!
