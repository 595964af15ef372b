//! What the operations achieve against the modelled store, when the store
//! carries out every action: a session is stepped through its events, each
//! of them the model's answer to the action before it.

use crate::convergence::{
    fresh_columns, lemma_reconcile_converges, lemma_rows_added_by_reconcile, names, written,
};
use crate::error::ApiError;
use crate::handlers::{
    create_children, failed, load, start_create, start_delete, start_get, start_search,
    start_update, step, ActionView, EventView, ReplyView, SessionView,
};
use crate::models::{
    owners_of, BaseRow, ChildEdit, ChildRow, CreateRecipeRequestView, NewChild, RecipeFields,
    RecipeView, SearchQueryParamsView, UpdateRecipeRequestView,
};
use crate::ordering::{ascending, in_order, lemma_ascending_is_kept};
use crate::queries::QueryView;
use crate::reconcile::reconcile_plan;
use crate::search::like_text;
use crate::sequences::{lemma_filter_drops_all, lemma_filter_keeps_all, lemma_filter_of_mapped};
use crate::statements::{ChildKind, StatementView};
use crate::store::{
    columns_of_row, lemma_run_one, lemma_run_push, new_rows, rows_added_by, Store,
};
use vstd::prelude::*;

verus! {

/// The writes that an action asks for; none unless it is a batch.
pub open spec fn batch_of(action: ActionView) -> Seq<StatementView> {
    match action {
        ActionView::Execute(batch) => batch,
        _ => Seq::empty(),
    }
}

/// The reply that an action gives; an internal error unless it is a reply.
pub open spec fn reply_of(action: ActionView) -> ReplyView {
    match action {
        ActionView::Respond(reply) => reply,
        _ => ReplyView::Failed(ApiError::Internal),
    }
}

/// The model's answer to the read of one recipe row.
pub open spec fn found(store: Store, id: i64) -> EventView {
    EventView::Recipe(store.find_recipe(id))
}

/// The model's answer to the read of the children of a recipe.
pub open spec fn owned(store: Store, kind: ChildKind, id: i64) -> EventView {
    EventView::Children { kind, rows: store.children_of(kind, id) }
}

/// The reply of the load path, started in `session`, against a store.
pub open spec fn load_outcome(session: SessionView, store: Store, id: i64) -> ReplyView {
    let (with_base, first) = step(session, found(store, id));
    let (with_ingredients, second) = step(with_base, owned(store, ChildKind::Ingredient, id));
    let (_, third) = step(with_ingredients, owned(store, ChildKind::Instruction, id));
    if first is Respond {
        reply_of(first)
    } else {
        reply_of(third)
    }
}

/// The reply to the fetch of a recipe.
pub open spec fn get_outcome(store: Store, id: i64) -> ReplyView {
    load_outcome(start_get(id).0, store, id)
}

/// The store after a create, and the reply to it. The store assigns `id` to
/// the recipe and `child_ids` to its children.
pub open spec fn create_outcome(
    store: Store,
    request: CreateRecipeRequestView,
    id: i64,
    child_ids: Seq<i64>,
) -> (Store, ReplyView) {
    let (begun, _) = start_create(request);
    let (with_base, insert) = step(begun, EventView::Started);
    let store = store.run(batch_of(insert), seq![id]);
    let (with_children, inserts) = step(with_base, EventView::Executed { last_insert_rowid: id });
    let store = store.run(batch_of(inserts), child_ids);
    let (committing, _) = step(with_children, EventView::Executed { last_insert_rowid: id });
    let (loading, _) = step(committing, EventView::Committed);
    (store, load_outcome(loading, store, id))
}

/// The store after a delete, and the reply to it.
pub open spec fn delete_outcome(store: Store, id: i64) -> (Store, ReplyView) {
    let (finding, _) = start_delete(id);
    let (deleting, first) = step(finding, found(store, id));
    if first is Respond {
        (store, reply_of(first))
    } else {
        let store = store.run(batch_of(first), Seq::empty());
        let (_, second) = step(deleting, EventView::Executed { last_insert_rowid: 0 });
        (store, reply_of(second))
    }
}

/// The load path replies with the recipe that the store holds under the
/// identifier, its children by ascending position, and with "not found" if
/// the store holds none.
pub proof fn lemma_load_replies_with_stored_recipe(store: Store, id: i64)
    ensures
        get_outcome(store, id) == match store.load(id) {
            Some(recipe) => ReplyView::Recipe(in_order(recipe)),
            None => ReplyView::Failed(ApiError::NotFound { id }),
        },
{
}

proof fn lemma_no_orphans(store: Store, kind: ChildKind, id: i64)
    requires
        store.children_have_parents(),
        store.find_recipe(id) is None,
    ensures
        store.children_of(kind, id) == Seq::<ChildRow>::empty(),
{
    let rows = store.children(kind);
    assert forall|i: int| 0 <= i < rows.len() implies !(#[trigger] rows[i].recipe_id == id) by {
        assert(store.find_recipe(store.children(kind)[i].recipe_id) is Some);
    }
    lemma_filter_drops_all(rows, |row: ChildRow| row.recipe_id == id);
}

proof fn lemma_added_children(rows: Seq<ChildRow>, id: i64, items: Seq<NewChild>, ids: Seq<i64>)
    requires
        rows.filter(|row: ChildRow| row.recipe_id == id) == Seq::<ChildRow>::empty(),
    ensures
        (rows + new_rows(id, items, ids)).filter(|row: ChildRow| row.recipe_id == id) == new_rows(
            id,
            items,
            ids,
        ),
        new_rows(id, items, ids).map_values(|row: ChildRow| columns_of_row(row)) == items,
{
    let mine = |row: ChildRow| row.recipe_id == id;
    let added = new_rows(id, items, ids);
    Seq::filter_distributes_over_add(rows, added, mine);
    lemma_filter_keeps_all(added, mine);
    assert(Seq::<ChildRow>::empty() + added =~= added);
    assert(added.map_values(|row: ChildRow| columns_of_row(row)) =~= items);
}

proof fn lemma_inserted_recipe(store: Store, row: BaseRow)
    requires
        store.find_recipe(row.id) is None,
    ensures
        (Store { recipes: store.recipes.push(row), ..store }).find_recipe(row.id) == Some(row),
{
    reveal(Seq::filter);
    let same = |other: BaseRow| other.id == row.id;
    assert(store.recipes.push(row).drop_last() =~= store.recipes);
    assert(store.recipes.filter(same).len() == 0);
    assert(store.recipes.push(row).filter(same) =~= seq![row]);
}

proof fn lemma_inserted_children(
    store: Store,
    id: i64,
    ingredients: Seq<NewChild>,
    instructions: Seq<NewChild>,
    child_ids: Seq<i64>,
)
    ensures
        ({
            let after = store.run(create_children(id, ingredients, instructions), child_ids);
            &&& after.recipes == store.recipes
            &&& after.ingredients == store.ingredients + new_rows(id, ingredients, child_ids)
            &&& after.instructions == store.instructions + new_rows(
                id,
                instructions,
                child_ids.skip(ingredients.len() as int),
            )
        }),
{
    let first = StatementView::InsertChildren {
        kind: ChildKind::Ingredient,
        recipe_id: id,
        items: ingredients,
    };
    let second = StatementView::InsertChildren {
        kind: ChildKind::Instruction,
        recipe_id: id,
        items: instructions,
    };
    let batch = create_children(id, ingredients, instructions);
    let after = store.run(batch, child_ids);
    let skipped = child_ids.skip(ingredients.len() as int);
    assert(child_ids.skip(0) =~= child_ids);
    assert(new_rows(id, Seq::<NewChild>::empty(), child_ids) =~= Seq::<ChildRow>::empty());
    assert(new_rows(id, Seq::<NewChild>::empty(), skipped) =~= Seq::<ChildRow>::empty());
    if ingredients.len() == 0 {
        if instructions.len() == 0 {
            assert(batch =~= Seq::<StatementView>::empty());
        } else {
            assert(batch =~= seq![second]);
            lemma_run_one(store, second, child_ids);
        }
    } else {
        lemma_run_one(store, first, child_ids);
        if instructions.len() == 0 {
            assert(batch =~= seq![first]);
        } else {
            assert(batch =~= seq![first].push(second));
            lemma_run_push(store, seq![first], second, child_ids);
        }
    }
    assert(after.ingredients =~= store.ingredients + new_rows(id, ingredients, child_ids));
    assert(after.instructions =~= store.instructions + new_rows(id, instructions, skipped));
}

/// The store after a create on which every write succeeds.
pub open spec fn created(
    store: Store,
    request: CreateRecipeRequestView,
    id: i64,
    child_ids: Seq<i64>,
) -> Store {
    store.run(seq![StatementView::InsertRecipe { fields: request.fields }], seq![id]).run(
        create_children(id, request.ingredients, request.instructions),
        child_ids,
    )
}

proof fn lemma_created_store(
    store: Store,
    request: CreateRecipeRequestView,
    id: i64,
    child_ids: Seq<i64>,
)
    requires
        store.children_have_parents(),
        store.find_recipe(id) is None,
    ensures
        created(store, request, id, child_ids).load(id) == Some(
            RecipeView {
                base: BaseRow { id, fields: request.fields },
                ingredients: new_rows(id, request.ingredients, child_ids),
                instructions: new_rows(
                    id,
                    request.instructions,
                    child_ids.skip(request.ingredients.len() as int),
                ),
            },
        ),
{
    let row = BaseRow { id, fields: request.fields };
    let insert = StatementView::InsertRecipe { fields: request.fields };
    lemma_run_one(store, insert, seq![id]);
    let store1 = store.run(seq![insert], seq![id]);
    assert(store1 == Store { recipes: store.recipes.push(row), ..store });
    lemma_inserted_recipe(store, row);
    lemma_inserted_children(store1, id, request.ingredients, request.instructions, child_ids);
    let store2 = created(store, request, id, child_ids);
    assert(store2.find_recipe(id) == Some(row));
    let skipped = child_ids.skip(request.ingredients.len() as int);
    lemma_no_orphans(store, ChildKind::Ingredient, id);
    lemma_no_orphans(store, ChildKind::Instruction, id);
    lemma_added_children(store.ingredients, id, request.ingredients, child_ids);
    lemma_added_children(store.instructions, id, request.instructions, skipped);
}

/// A recipe that has just been created loads as it was requested. Where no
/// recipe is stored under the identifier that the store assigns, the create
/// replies with the recipe: its fields are the request's, and its children
/// are the request's, each under the identifier that the store assigned to
/// it, by ascending position. Where the request lists them by ascending
/// position, they come in the request's order. A fetch right after the
/// create replies the same.
pub proof fn lemma_created_recipe_loads(
    store: Store,
    request: CreateRecipeRequestView,
    id: i64,
    child_ids: Seq<i64>,
)
    requires
        store.children_have_parents(),
        store.find_recipe(id) is None,
    ensures
        ({
            let (after, reply) = create_outcome(store, request, id, child_ids);
            let ingredients = new_rows(id, request.ingredients, child_ids);
            let instructions = new_rows(
                id,
                request.instructions,
                child_ids.skip(request.ingredients.len() as int),
            );
            let recipe = RecipeView {
                base: BaseRow { id, fields: request.fields },
                ingredients,
                instructions,
            };
            &&& reply == ReplyView::Recipe(in_order(recipe))
            &&& ascending(ingredients) && ascending(instructions) ==> reply == ReplyView::Recipe(
                recipe,
            )
            &&& get_outcome(after, id) == reply
            &&& ingredients.map_values(|row: ChildRow| columns_of_row(row)) == request.ingredients
            &&& instructions.map_values(|row: ChildRow| columns_of_row(row))
                == request.instructions
        }),
{
    let after = created(store, request, id, child_ids);
    lemma_created_store(store, request, id, child_ids);
    assert(create_outcome(store, request, id, child_ids) == (after, get_outcome(after, id)));
    lemma_load_replies_with_stored_recipe(after, id);
    let ingredients = new_rows(id, request.ingredients, child_ids);
    let instructions = new_rows(
        id,
        request.instructions,
        child_ids.skip(request.ingredients.len() as int),
    );
    assert(ingredients.map_values(|row: ChildRow| columns_of_row(row)) =~= request.ingredients);
    assert(instructions.map_values(|row: ChildRow| columns_of_row(row)) =~= request.instructions);
    if ascending(ingredients) && ascending(instructions) {
        lemma_ascending_is_kept(ingredients);
        lemma_ascending_is_kept(instructions);
    }
}

/// A deleted recipe is gone. Whatever the store held, a fetch right after a
/// delete replies "not found". The delete itself replies "deleted" where the
/// recipe was stored, and takes the recipe's children with it; where the
/// recipe was not stored it replies "not found" and changes nothing.
pub proof fn lemma_deleted_recipe_is_not_found(store: Store, id: i64)
    ensures
        ({
            let (after, reply) = delete_outcome(store, id);
            &&& get_outcome(after, id) == ReplyView::Failed(ApiError::NotFound { id })
            &&& reply == if store.find_recipe(id) is Some {
                ReplyView::Deleted { id }
            } else {
                ReplyView::Failed(ApiError::NotFound { id })
            }
            &&& store.find_recipe(id) is Some ==> forall|kind: ChildKind|
                after.children_of(kind, id) == Seq::<ChildRow>::empty()
            &&& store.find_recipe(id) is None ==> after == store
        }),
{
    if store.find_recipe(id) is Some {
        let delete = StatementView::DeleteRecipe { id };
        lemma_run_one(store, delete, Seq::empty());
        let after = store.run(seq![delete], Seq::empty());
        let same = |row: BaseRow| row.id == id;
        let kept = store.recipes.filter(|row: BaseRow| row.id != id);
        assert forall|i: int| 0 <= i < kept.len() implies !same(#[trigger] kept[i]) by {
            store.recipes.lemma_filter_pred(|row: BaseRow| row.id != id, i);
        }
        lemma_filter_drops_all(kept, same);
        let mine = |row: ChildRow| row.recipe_id == id;
        let ingredients = store.ingredients.filter(|row: ChildRow| row.recipe_id != id);
        assert forall|i: int| 0 <= i < ingredients.len() implies !mine(
            #[trigger] ingredients[i],
        ) by {
            store.ingredients.lemma_filter_pred(|row: ChildRow| row.recipe_id != id, i);
        }
        lemma_filter_drops_all(ingredients, mine);
        let instructions = store.instructions.filter(|row: ChildRow| row.recipe_id != id);
        assert forall|i: int| 0 <= i < instructions.len() implies !mine(
            #[trigger] instructions[i],
        ) by {
            store.instructions.lemma_filter_pred(|row: ChildRow| row.recipe_id != id, i);
        }
        lemma_filter_drops_all(instructions, mine);
    }
}

/// The store after an update, and the reply to it. The store assigns `ids`
/// to the children that the update adds, the ingredients first.
pub open spec fn update_outcome(
    store: Store,
    id: i64,
    request: UpdateRecipeRequestView,
    ids: Seq<i64>,
) -> (Store, ReplyView) {
    let (begun, _) = start_update(id, request);
    let (with_base, write) = step(begun, EventView::Started);
    let store = store.run(batch_of(write), Seq::empty());
    let (asking, _) = step(with_base, EventView::Executed { last_insert_rowid: 0 });
    let (with_ingredients, first) = step(asking, owned(store, ChildKind::Ingredient, id));
    let store = store.run(batch_of(first), ids);
    let (asking, _) = step(with_ingredients, EventView::Executed { last_insert_rowid: 0 });
    let (with_instructions, second) = step(asking, owned(store, ChildKind::Instruction, id));
    let store = store.run(batch_of(second), ids.skip(rows_added_by(batch_of(first)) as int));
    let (committing, _) = step(with_instructions, EventView::Executed { last_insert_rowid: 0 });
    let (loading, _) = step(committing, EventView::Committed);
    (store, load_outcome(loading, store, id))
}

/// The children of one collection that a recipe owns after an update: the
/// rows that the submitted list names, as the list writes them, and behind
/// them the rows that it adds.
pub open spec fn reconciled(
    rows: Seq<ChildRow>,
    recipe_id: i64,
    submitted: Seq<ChildEdit>,
    ids: Seq<i64>,
) -> Seq<ChildRow> {
    rows.filter(|row: ChildRow| names(submitted, row)).map_values(
        |row: ChildRow| written(submitted, row),
    ) + new_rows(recipe_id, fresh_columns(submitted), ids)
}

proof fn lemma_updated_recipe(store: Store, id: i64, fields: RecipeFields)
    ensures
        ({
            let after = store.apply(StatementView::UpdateRecipe { id, fields }, Seq::empty());
            &&& after.ingredients == store.ingredients
            &&& after.instructions == store.instructions
            &&& after.find_recipe(id) == if store.find_recipe(id) is Some {
                Some(BaseRow { id, fields })
            } else {
                None
            }
        }),
{
    let same = |row: BaseRow| row.id == id;
    let change = |row: BaseRow|
        if row.id == id {
            BaseRow { id, fields }
        } else {
            row
        };
    assert forall|i: int| 0 <= i < store.recipes.len() implies same(
        change(#[trigger] store.recipes[i]),
    ) == same(store.recipes[i]) by {}
    lemma_filter_of_mapped(store.recipes, change, same);
    let found = store.recipes.filter(same);
    if found.len() > 0 {
        store.recipes.lemma_filter_pred(same, 0);
    }
}

/// An updated recipe loads as it was submitted. Where the recipe is stored,
/// the update replies with the recipe: its fields are the request's, and
/// each of its collections holds the rows that the list names, under their
/// old identifiers with the position and description of the last item that
/// names them, and one new row per item without an identifier, all by
/// ascending position. Where the recipe is not stored, the update replies
/// "not found". An item that names a row of another recipe changes no row:
/// where no two rows of a table share an identifier, the children of every
/// other recipe are as they were.
pub proof fn lemma_updated_recipe_loads(
    store: Store,
    id: i64,
    request: UpdateRecipeRequestView,
    ids: Seq<i64>,
)
    requires
        fresh_columns(request.ingredients).len() + fresh_columns(request.instructions).len()
            <= ids.len(),
    ensures
        ({
            let (after, reply) = update_outcome(store, id, request, ids);
            let added = fresh_columns(request.ingredients).len() as int;
            &&& reply == if store.find_recipe(id) is Some {
                ReplyView::Recipe(
                    in_order(RecipeView {
                        base: BaseRow { id, fields: request.fields },
                        ingredients: reconciled(
                            store.children_of(ChildKind::Ingredient, id),
                            id,
                            request.ingredients,
                            ids,
                        ),
                        instructions: reconciled(
                            store.children_of(ChildKind::Instruction, id),
                            id,
                            request.instructions,
                            ids.skip(added),
                        ),
                    }),
                )
            } else {
                ReplyView::Failed(ApiError::NotFound { id })
            }
            &&& get_outcome(after, id) == reply
            &&& store.ids_unique() ==> forall|kind: ChildKind, other: i64|
                other != id ==> #[trigger] after.children_of(kind, other) == store.children_of(
                    kind,
                    other,
                )
        }),
{
    let write = StatementView::UpdateRecipe { id, fields: request.fields };
    lemma_run_one(store, write, Seq::empty());
    lemma_updated_recipe(store, id, request.fields);
    let store1 = store.run(seq![write], Seq::empty());
    let first = reconcile_plan(
        ChildKind::Ingredient,
        id,
        store1.child_ids(ChildKind::Ingredient, id),
        request.ingredients,
    );
    lemma_reconcile_converges(store1, ChildKind::Ingredient, id, request.ingredients, ids);
    lemma_rows_added_by_reconcile(
        ChildKind::Ingredient,
        id,
        store1.child_ids(ChildKind::Ingredient, id),
        request.ingredients,
    );
    let store2 = store1.run(first, ids);
    assert(store2.children(ChildKind::Instruction) == store1.children(ChildKind::Instruction));
    let left = ids.skip(rows_added_by(first) as int);
    lemma_reconcile_converges(store2, ChildKind::Instruction, id, request.instructions, left);
    let second = reconcile_plan(
        ChildKind::Instruction,
        id,
        store2.child_ids(ChildKind::Instruction, id),
        request.instructions,
    );
    let store3 = store2.run(second, left);
    assert(store3.children(ChildKind::Ingredient) == store2.children(ChildKind::Ingredient));
    assert(store3.recipes == store1.recipes);
    if store.ids_unique() {
        assert forall|kind: ChildKind, other: i64| other != id implies #[trigger] store3.children_of(
            kind,
            other,
        ) == store.children_of(kind, other) by {
            match kind {
                ChildKind::Ingredient => {
                    assert(store2.children_of(kind, other) == store1.children_of(kind, other));
                },
                ChildKind::Instruction => {
                    assert(store3.children_of(kind, other) == store2.children_of(kind, other));
                },
            }
        }
    }
}

/// The last action of a search before its reply, where the store answers
/// the reads of children with `ingredients` and `instructions`.
pub open spec fn search_outcome(
    params: SearchQueryParamsView,
    ingredients: Seq<ChildRow>,
    instructions: Seq<ChildRow>,
) -> ActionView {
    let (started, first) = start_search(params);
    let (after_ingredients, second) = if params.include_ingredients {
        step(started, EventView::Children { kind: ChildKind::Ingredient, rows: ingredients })
    } else {
        (started, first)
    };
    let (_, third) = if params.include_instructions {
        step(
            after_ingredients,
            EventView::Children { kind: ChildKind::Instruction, rows: instructions },
        )
    } else {
        (after_ingredients, second)
    };
    third
}

/// The recipes that own a matching child of a collection that the search
/// includes.
pub open spec fn matching_owners(
    params: SearchQueryParamsView,
    ingredients: Seq<ChildRow>,
    instructions: Seq<ChildRow>,
) -> Set<i64> {
    Set::new(
        |id: i64|
            (params.include_ingredients && owners_of(ingredients).contains(id)) || (
            params.include_instructions && owners_of(instructions).contains(id)),
    )
}

/// A search ends with one read of recipes: by the pattern that stands for
/// "contains the query", and by the identifiers of the recipes that own a
/// matching child of a collection that the search includes. The reply is
/// what the store answers to that read.
pub proof fn lemma_search_asks_for_each_owner_once(
    params: SearchQueryParamsView,
    ingredients: Seq<ChildRow>,
    instructions: Seq<ChildRow>,
    answer: Seq<BaseRow>,
)
    ensures
        search_outcome(params, ingredients, instructions) == ActionView::Fetch(
            QueryView::RecipesLike {
                pattern: like_text(params.query),
                ids: matching_owners(params, ingredients, instructions),
            },
        ),
        step(SessionView::SearchRecipes, EventView::Recipes(answer)) == (
            SessionView::Done,
            ActionView::Respond(ReplyView::Recipes(answer)),
        ),
{
    let owners = matching_owners(params, ingredients, instructions);
    let first = owners_of(ingredients).to_set();
    let second = owners_of(instructions).to_set();
    let nothing = Set::<i64>::empty();
    if params.include_ingredients {
        if params.include_instructions {
            assert(first.union(second) =~= owners);
        } else {
            assert(first =~= owners);
        }
    } else {
        if params.include_instructions {
            assert(nothing.union(second) =~= owners);
        } else {
            assert(nothing =~= owners);
        }
    }
}

/// A failure of the store ends every operation at once: the session replies
/// with the internal error and asks for nothing more, so that no write
/// follows and no commit.
pub proof fn lemma_failure_ends_session(session: SessionView)
    ensures
        step(session, EventView::Failed) == failed(),
{
}

/// A session asks for the commit only once the last of its writes has been
/// carried out, and loads the recipe only once the commit has.
pub proof fn lemma_commit_follows_the_writes(session: SessionView, event: EventView)
    ensures
        step(session, event).1 is Commit ==> event is Executed && (session is CreateChildren
            || session is UpdateInstructions),
        session is Commit ==> step(session, event) == if event is Committed {
            load(session->Commit_id)
        } else {
            failed()
        },
{
}

} // verus!
