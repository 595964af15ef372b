//! The five operations on recipes, each as a session: a state that takes what
//! the store answered and says what to ask of it next. The caller performs
//! each action and hands back the event; the session decides.

use crate::error::ApiError;
use crate::models::{
    rows_of, stored_ids, BaseRow, ChildEdit, ChildRow, CreateIngredientRequest,
    CreateInstructionRequest, CreateRecipeRequest, CreateRecipeRequestView, Ingredient,
    Instruction, NewChild, Recipe, RecipeBase, RecipeView, SearchQueryParams,
    SearchQueryParamsView, UpdateIngredientRequest, UpdateInstructionRequest,
    UpdateRecipeRequest, UpdateRecipeRequestView, ids_of, owners_of,
};
use crate::ordering::{in_order, sort_by_position};
use crate::queries::{Query, QueryView};
use crate::reconcile::{edits, reconcile, reconcile_plan};
use crate::search::{add_owners, like_pattern, like_text};
use crate::statements::{
    child_columns, drafts, ChildKind, RecipeColumns, Statement, StatementView,
};
use std::collections::HashSet;
use vstd::prelude::*;

verus! {

/// How an operation ended, in the model.
pub enum ReplyView {
    Recipe(RecipeView),
    Recipes(Seq<BaseRow>),
    Deleted { id: i64 },
    Failed(ApiError),
}

/// How an operation ended.
#[derive(Debug, Clone, PartialEq, Eq)]
pub enum Reply {
    /// The recipe asked for, created or updated.
    Recipe(Recipe),
    /// The recipes that a search found, without their children.
    Recipes(Vec<RecipeBase>),
    /// The recipe was deleted; there is nothing to send.
    Deleted { id: i64 },
    Failed(ApiError),
}

impl View for Reply {
    type V = ReplyView;

    open spec fn view(&self) -> ReplyView {
        match *self {
            Reply::Recipe(recipe) => ReplyView::Recipe(recipe@),
            Reply::Recipes(recipes) => ReplyView::Recipes(recipes.deep_view()),
            Reply::Deleted { id } => ReplyView::Deleted { id },
            Reply::Failed(error) => ReplyView::Failed(error),
        }
    }
}

impl ReplyView {
    /// The text of the reply: the message of a failure, and nothing else.
    pub open spec fn text(self) -> Seq<char> {
        match self {
            ReplyView::Failed(error) => error.text(),
            _ => Seq::empty(),
        }
    }

    /// The HTTP status of the reply.
    pub open spec fn status_code(self) -> u16 {
        match self {
            ReplyView::Recipe(_) => 200,
            ReplyView::Recipes(_) => 200,
            ReplyView::Deleted { .. } => 204,
            ReplyView::Failed(error) => error.status_code(),
        }
    }
}

impl Reply {
    /// The text to send where the reply carries no recipe: what went wrong
    /// for a failure, and nothing for a delete, whose status says it all.
    /// A reply with recipes is sent as their JSON, and has no text either.
    pub fn message(&self) -> (message: String)
        ensures
            message@ == self@.text(),
    {
        match self {
            Reply::Failed(error) => error.message(),
            _ => String::new(),
        }
    }

    pub fn status(&self) -> (status: u16)
        ensures
            status == self@.status_code(),
    {
        match self {
            Reply::Recipe(_) => 200,
            Reply::Recipes(_) => 200,
            Reply::Deleted { .. } => 204,
            Reply::Failed(error) => error.status(),
        }
    }
}

/// What a session asks of its caller, in the model.
pub enum ActionView {
    Begin,
    Execute(Seq<StatementView>),
    Fetch(QueryView),
    Commit,
    Respond(ReplyView),
}

/// What a session asks of its caller.
#[derive(Debug, PartialEq, Eq)]
pub enum Action {
    /// Open a transaction. The writes that follow run inside it.
    Begin,
    /// Run the writes in order and stop at the first that fails. An empty
    /// list succeeds without touching the store.
    Execute(Vec<Statement>),
    /// Run the read, inside the open transaction if there is one.
    Fetch(Query),
    /// Commit the open transaction.
    Commit,
    /// The operation is over: send the reply. A transaction that is still
    /// open is abandoned, and nothing of it stays.
    Respond(Reply),
}

impl View for Action {
    type V = ActionView;

    open spec fn view(&self) -> ActionView {
        match *self {
            Action::Begin => ActionView::Begin,
            Action::Execute(batch) => ActionView::Execute(batch.deep_view()),
            Action::Fetch(query) => ActionView::Fetch(query@),
            Action::Commit => ActionView::Commit,
            Action::Respond(reply) => ActionView::Respond(reply@),
        }
    }
}

/// What the store answered, in the model.
pub enum EventView {
    Started,
    Executed { last_insert_rowid: i64 },
    Recipe(Option<BaseRow>),
    Recipes(Seq<BaseRow>),
    Children { kind: ChildKind, rows: Seq<ChildRow> },
    Committed,
    Failed,
}

/// What the store answered to the last action.
#[derive(Debug, Clone, PartialEq, Eq)]
pub enum Event {
    /// The transaction is open.
    Started,
    /// Every write of the batch succeeded. The identifier is the one that the
    /// store assigned to the row inserted last.
    Executed { last_insert_rowid: i64 },
    /// The answer to a read of one recipe row.
    Recipe(Option<RecipeBase>),
    /// The answer to a read of recipe rows.
    Recipes(Vec<RecipeBase>),
    /// The answer to a read of ingredient rows.
    Ingredients(Vec<Ingredient>),
    /// The answer to a read of instruction rows.
    Instructions(Vec<Instruction>),
    /// The transaction is committed.
    Committed,
    /// The store failed on the last action.
    Failed,
}

impl View for Event {
    type V = EventView;

    open spec fn view(&self) -> EventView {
        match *self {
            Event::Started => EventView::Started,
            Event::Executed { last_insert_rowid } => EventView::Executed { last_insert_rowid },
            Event::Recipe(row) => EventView::Recipe(row.deep_view()),
            Event::Recipes(rows) => EventView::Recipes(rows.deep_view()),
            Event::Ingredients(rows) => EventView::Children {
                kind: ChildKind::Ingredient,
                rows: rows.deep_view(),
            },
            Event::Instructions(rows) => EventView::Children {
                kind: ChildKind::Instruction,
                rows: rows.deep_view(),
            },
            Event::Committed => EventView::Committed,
            Event::Failed => EventView::Failed,
        }
    }
}

/// Where an operation stands, in the model.
pub enum SessionView {
    LoadBase { id: i64 },
    LoadIngredients { id: i64, base: BaseRow },
    LoadInstructions { id: i64, base: BaseRow, ingredients: Seq<ChildRow> },
    SearchIngredients { pattern: Seq<char>, include_instructions: bool },
    SearchInstructions { pattern: Seq<char>, found: Set<i64> },
    SearchRecipes,
    CreateBegin { request: CreateRecipeRequestView },
    CreateBase { ingredients: Seq<NewChild>, instructions: Seq<NewChild> },
    CreateChildren { id: i64 },
    DeleteFind { id: i64 },
    DeleteRow { id: i64 },
    UpdateBegin { id: i64, request: UpdateRecipeRequestView },
    UpdateBase { id: i64, ingredients: Seq<ChildEdit>, instructions: Seq<ChildEdit> },
    UpdateIngredientIds { id: i64, ingredients: Seq<ChildEdit>, instructions: Seq<ChildEdit> },
    UpdateIngredients { id: i64, instructions: Seq<ChildEdit> },
    UpdateInstructionIds { id: i64, instructions: Seq<ChildEdit> },
    UpdateInstructions { id: i64 },
    Commit { id: i64 },
    Done,
}

/// Where an operation stands: what it waits for, and what it keeps for the
/// steps to come.
#[allow(inconsistent_fields)]
#[derive(Debug, PartialEq, Eq)]
pub enum Session {
    /// Waits for the recipe row.
    LoadBase { id: i64 },
    /// Waits for the recipe's ingredients.
    LoadIngredients { id: i64, base: RecipeBase },
    /// Waits for the recipe's instructions.
    LoadInstructions { id: i64, base: RecipeBase, ingredients: Vec<Ingredient> },
    /// Waits for the ingredients that match the pattern.
    SearchIngredients { pattern: String, include_instructions: bool },
    /// Waits for the instructions that match the pattern.
    SearchInstructions { pattern: String, found: HashSet<i64> },
    /// Waits for the recipes found.
    SearchRecipes,
    /// Waits for the transaction of a create.
    CreateBegin { request: CreateRecipeRequest },
    /// Waits for the insert of the recipe row.
    CreateBase {
        ingredients: Vec<CreateIngredientRequest>,
        instructions: Vec<CreateInstructionRequest>,
    },
    /// Waits for the inserts of the children.
    CreateChildren { id: i64 },
    /// Waits for the row that is to be deleted.
    DeleteFind { id: i64 },
    /// Waits for the delete.
    DeleteRow { id: i64 },
    /// Waits for the transaction of an update.
    UpdateBegin { id: i64, request: UpdateRecipeRequest },
    /// Waits for the update of the recipe row.
    UpdateBase {
        id: i64,
        ingredients: Vec<UpdateIngredientRequest>,
        instructions: Vec<UpdateInstructionRequest>,
    },
    /// Waits for the stored ingredients.
    UpdateIngredientIds {
        id: i64,
        ingredients: Vec<UpdateIngredientRequest>,
        instructions: Vec<UpdateInstructionRequest>,
    },
    /// Waits for the writes to the ingredients.
    UpdateIngredients { id: i64, instructions: Vec<UpdateInstructionRequest> },
    /// Waits for the stored instructions.
    UpdateInstructionIds { id: i64, instructions: Vec<UpdateInstructionRequest> },
    /// Waits for the writes to the instructions.
    UpdateInstructions { id: i64 },
    /// Waits for the commit; the recipe is loaded after it.
    Commit { id: i64 },
    /// The reply has been given.
    Done,
}

impl View for Session {
    type V = SessionView;

    open spec fn view(&self) -> SessionView {
        match *self {
            Session::LoadBase { id } => SessionView::LoadBase { id },
            Session::LoadIngredients { id, base } => SessionView::LoadIngredients { id, base: base@ },
            Session::LoadInstructions { id, base, ingredients } => SessionView::LoadInstructions {
                id,
                base: base@,
                ingredients: ingredients.deep_view(),
            },
            Session::SearchIngredients {
                pattern,
                include_instructions,
            } => SessionView::SearchIngredients { pattern: pattern@, include_instructions },
            Session::SearchInstructions { pattern, found } => SessionView::SearchInstructions {
                pattern: pattern@,
                found: found@,
            },
            Session::SearchRecipes => SessionView::SearchRecipes,
            Session::CreateBegin { request } => SessionView::CreateBegin { request: request@ },
            Session::CreateBase { ingredients, instructions } => SessionView::CreateBase {
                ingredients: ingredients.deep_view(),
                instructions: instructions.deep_view(),
            },
            Session::CreateChildren { id } => SessionView::CreateChildren { id },
            Session::DeleteFind { id } => SessionView::DeleteFind { id },
            Session::DeleteRow { id } => SessionView::DeleteRow { id },
            Session::UpdateBegin { id, request } => SessionView::UpdateBegin {
                id,
                request: request@,
            },
            Session::UpdateBase { id, ingredients, instructions } => SessionView::UpdateBase {
                id,
                ingredients: ingredients.deep_view(),
                instructions: instructions.deep_view(),
            },
            Session::UpdateIngredientIds {
                id,
                ingredients,
                instructions,
            } => SessionView::UpdateIngredientIds {
                id,
                ingredients: ingredients.deep_view(),
                instructions: instructions.deep_view(),
            },
            Session::UpdateIngredients { id, instructions } => SessionView::UpdateIngredients {
                id,
                instructions: instructions.deep_view(),
            },
            Session::UpdateInstructionIds {
                id,
                instructions,
            } => SessionView::UpdateInstructionIds { id, instructions: instructions.deep_view() },
            Session::UpdateInstructions { id } => SessionView::UpdateInstructions { id },
            Session::Commit { id } => SessionView::Commit { id },
            Session::Done => SessionView::Done,
        }
    }
}

/// The end of an operation on which the store failed.
pub open spec fn failed() -> (SessionView, ActionView) {
    (SessionView::Done, ActionView::Respond(ReplyView::Failed(ApiError::Internal)))
}

/// The first read of the load path.
pub open spec fn load(id: i64) -> (SessionView, ActionView) {
    (SessionView::LoadBase { id }, ActionView::Fetch(QueryView::Recipe { id }))
}

/// The last read of a search.
pub open spec fn find_recipes(pattern: Seq<char>, found: Set<i64>) -> (SessionView, ActionView) {
    (SessionView::SearchRecipes, ActionView::Fetch(QueryView::RecipesLike { pattern, ids: found }))
}

/// The bulk inserts of a new recipe's children: one per collection that is
/// not empty, the ingredients first.
pub open spec fn create_children(
    id: i64,
    ingredients: Seq<NewChild>,
    instructions: Seq<NewChild>,
) -> Seq<StatementView> {
    let first = if ingredients.len() == 0 {
        Seq::<StatementView>::empty()
    } else {
        seq![
            StatementView::InsertChildren {
                kind: ChildKind::Ingredient,
                recipe_id: id,
                items: ingredients,
            },
        ]
    };
    let second = if instructions.len() == 0 {
        Seq::<StatementView>::empty()
    } else {
        seq![
            StatementView::InsertChildren {
                kind: ChildKind::Instruction,
                recipe_id: id,
                items: instructions,
            },
        ]
    };
    first + second
}

/// How a fetch of a recipe starts: with the read of its row.
pub open spec fn start_get(id: i64) -> (SessionView, ActionView) {
    load(id)
}

/// How a search starts: with the read of the matching ingredients or
/// instructions where they are asked for, else with the read of the recipes.
pub open spec fn start_search(params: SearchQueryParamsView) -> (SessionView, ActionView) {
    let pattern = like_text(params.query);
    if params.include_ingredients {
        (
            SessionView::SearchIngredients {
                pattern,
                include_instructions: params.include_instructions,
            },
            ActionView::Fetch(QueryView::ChildrenLike { kind: ChildKind::Ingredient, pattern }),
        )
    } else if params.include_instructions {
        (
            SessionView::SearchInstructions { pattern, found: Set::empty() },
            ActionView::Fetch(QueryView::ChildrenLike { kind: ChildKind::Instruction, pattern }),
        )
    } else {
        find_recipes(pattern, Set::empty())
    }
}

/// How a create starts: with a transaction.
pub open spec fn start_create(request: CreateRecipeRequestView) -> (SessionView, ActionView) {
    (SessionView::CreateBegin { request }, ActionView::Begin)
}

/// How a delete starts: with the read of the row.
pub open spec fn start_delete(id: i64) -> (SessionView, ActionView) {
    (SessionView::DeleteFind { id }, ActionView::Fetch(QueryView::Recipe { id }))
}

/// How an update starts: with a transaction.
pub open spec fn start_update(id: i64, request: UpdateRecipeRequestView) -> (
    SessionView,
    ActionView,
) {
    (SessionView::UpdateBegin { id, request }, ActionView::Begin)
}

/// The next state and action of the load path. The recipe is handed out with
/// its children by ascending position.
pub open spec fn load_step(session: SessionView, event: EventView) -> (SessionView, ActionView) {
    match (session, event) {
        (SessionView::LoadBase { id }, EventView::Recipe(Some(base))) => (
            SessionView::LoadIngredients { id, base },
            ActionView::Fetch(QueryView::Children { kind: ChildKind::Ingredient, recipe_id: id }),
        ),
        (SessionView::LoadBase { id }, EventView::Recipe(None)) => (
            SessionView::Done,
            ActionView::Respond(ReplyView::Failed(ApiError::NotFound { id })),
        ),
        (
            SessionView::LoadIngredients { id, base },
            EventView::Children { kind: ChildKind::Ingredient, rows },
        ) => (
            SessionView::LoadInstructions { id, base, ingredients: rows },
            ActionView::Fetch(QueryView::Children { kind: ChildKind::Instruction, recipe_id: id }),
        ),
        (
            SessionView::LoadInstructions { id, base, ingredients },
            EventView::Children { kind: ChildKind::Instruction, rows },
        ) => (
            SessionView::Done,
            ActionView::Respond(
                ReplyView::Recipe(in_order(RecipeView { base, ingredients, instructions: rows })),
            ),
        ),
        _ => failed(),
    }
}

/// The next state and action of a search. The recipes that own a matching
/// child are collected as a set, so that each is asked for once.
pub open spec fn search_step(session: SessionView, event: EventView) -> (SessionView, ActionView) {
    match (session, event) {
        (
            SessionView::SearchIngredients { pattern, include_instructions },
            EventView::Children { kind: ChildKind::Ingredient, rows },
        ) => {
            let found = owners_of(rows).to_set();
            if include_instructions {
                (
                    SessionView::SearchInstructions { pattern, found },
                    ActionView::Fetch(
                        QueryView::ChildrenLike { kind: ChildKind::Instruction, pattern },
                    ),
                )
            } else {
                find_recipes(pattern, found)
            }
        },
        (
            SessionView::SearchInstructions { pattern, found },
            EventView::Children { kind: ChildKind::Instruction, rows },
        ) => find_recipes(pattern, found.union(owners_of(rows).to_set())),
        (SessionView::SearchRecipes, EventView::Recipes(rows)) => (
            SessionView::Done,
            ActionView::Respond(ReplyView::Recipes(rows)),
        ),
        _ => failed(),
    }
}

/// The next state and action of a create.
pub open spec fn create_step(session: SessionView, event: EventView) -> (SessionView, ActionView) {
    match (session, event) {
        (SessionView::CreateBegin { request }, EventView::Started) => (
            SessionView::CreateBase {
                ingredients: request.ingredients,
                instructions: request.instructions,
            },
            ActionView::Execute(seq![StatementView::InsertRecipe { fields: request.fields }]),
        ),
        (
            SessionView::CreateBase { ingredients, instructions },
            EventView::Executed { last_insert_rowid },
        ) => (
            SessionView::CreateChildren { id: last_insert_rowid },
            ActionView::Execute(create_children(last_insert_rowid, ingredients, instructions)),
        ),
        (SessionView::CreateChildren { id }, EventView::Executed { .. }) => (
            SessionView::Commit { id },
            ActionView::Commit,
        ),
        _ => failed(),
    }
}

/// The next state and action of a delete.
pub open spec fn delete_step(session: SessionView, event: EventView) -> (SessionView, ActionView) {
    match (session, event) {
        (SessionView::DeleteFind { id }, EventView::Recipe(Some(_))) => (
            SessionView::DeleteRow { id },
            ActionView::Execute(seq![StatementView::DeleteRecipe { id }]),
        ),
        (SessionView::DeleteFind { id }, EventView::Recipe(None)) => (
            SessionView::Done,
            ActionView::Respond(ReplyView::Failed(ApiError::NotFound { id })),
        ),
        (SessionView::DeleteRow { id }, EventView::Executed { .. }) => (
            SessionView::Done,
            ActionView::Respond(ReplyView::Deleted { id }),
        ),
        _ => failed(),
    }
}

/// The next state and action of an update.
pub open spec fn update_step(session: SessionView, event: EventView) -> (SessionView, ActionView) {
    match (session, event) {
        (SessionView::UpdateBegin { id, request }, EventView::Started) => (
            SessionView::UpdateBase {
                id,
                ingredients: request.ingredients,
                instructions: request.instructions,
            },
            ActionView::Execute(seq![StatementView::UpdateRecipe { id, fields: request.fields }]),
        ),
        (
            SessionView::UpdateBase { id, ingredients, instructions },
            EventView::Executed { .. },
        ) => (
            SessionView::UpdateIngredientIds { id, ingredients, instructions },
            ActionView::Fetch(QueryView::Children { kind: ChildKind::Ingredient, recipe_id: id }),
        ),
        (
            SessionView::UpdateIngredientIds { id, ingredients, instructions },
            EventView::Children { kind: ChildKind::Ingredient, rows },
        ) => (
            SessionView::UpdateIngredients { id, instructions },
            ActionView::Execute(
                reconcile_plan(ChildKind::Ingredient, id, ids_of(rows), ingredients),
            ),
        ),
        (SessionView::UpdateIngredients { id, instructions }, EventView::Executed { .. }) => (
            SessionView::UpdateInstructionIds { id, instructions },
            ActionView::Fetch(QueryView::Children { kind: ChildKind::Instruction, recipe_id: id }),
        ),
        (
            SessionView::UpdateInstructionIds { id, instructions },
            EventView::Children { kind: ChildKind::Instruction, rows },
        ) => (
            SessionView::UpdateInstructions { id },
            ActionView::Execute(
                reconcile_plan(ChildKind::Instruction, id, ids_of(rows), instructions),
            ),
        ),
        (SessionView::UpdateInstructions { id }, EventView::Executed { .. }) => (
            SessionView::Commit { id },
            ActionView::Commit,
        ),
        _ => failed(),
    }
}

/// The next state and the action that a session answers an event with. A
/// committed transaction is followed by the load of its recipe. An event
/// that the state does not wait for, a failure of the store among them, ends
/// the operation with an internal error.
pub open spec fn step(session: SessionView, event: EventView) -> (SessionView, ActionView) {
    match session {
        SessionView::LoadBase { .. }
        | SessionView::LoadIngredients { .. }
        | SessionView::LoadInstructions { .. } => load_step(session, event),
        SessionView::SearchIngredients { .. }
        | SessionView::SearchInstructions { .. }
        | SessionView::SearchRecipes => search_step(session, event),
        SessionView::CreateBegin { .. }
        | SessionView::CreateBase { .. }
        | SessionView::CreateChildren { .. } => create_step(session, event),
        SessionView::DeleteFind { .. } | SessionView::DeleteRow { .. } => delete_step(
            session,
            event,
        ),
        SessionView::UpdateBegin { .. }
        | SessionView::UpdateBase { .. }
        | SessionView::UpdateIngredientIds { .. }
        | SessionView::UpdateIngredients { .. }
        | SessionView::UpdateInstructionIds { .. }
        | SessionView::UpdateInstructions { .. } => update_step(session, event),
        SessionView::Commit { id } => match event {
            EventView::Committed => load(id),
            _ => failed(),
        },
        SessionView::Done => failed(),
    }
}

fn fail() -> (next: (Session, Action))
    ensures
        (next.0@, next.1@) == failed(),
{
    (Session::Done, Action::Respond(Reply::Failed(ApiError::Internal)))
}

fn missing(id: i64) -> (next: (Session, Action))
    ensures
        next.0@ == SessionView::Done,
        next.1@ == ActionView::Respond(ReplyView::Failed(ApiError::NotFound { id })),
{
    (Session::Done, Action::Respond(Reply::Failed(ApiError::NotFound { id })))
}

fn start_load(id: i64) -> (next: (Session, Action))
    ensures
        (next.0@, next.1@) == load(id),
{
    (Session::LoadBase { id }, Action::Fetch(Query::Recipe { id }))
}

fn single(statement: Statement) -> (batch: Vec<Statement>)
    ensures
        batch.deep_view() == seq![statement@],
{
    let mut batch: Vec<Statement> = Vec::new();
    batch.push(statement);
    assert(batch.deep_view() =~= seq![statement@]);
    batch
}

fn fetch_recipes(pattern: String, found: HashSet<i64>) -> (next: (Session, Action))
    ensures
        (next.0@, next.1@) == find_recipes(pattern@, found@),
{
    (Session::SearchRecipes, Action::Fetch(Query::RecipesLike { pattern, ids: found }))
}

/// Starts the fetch of one recipe with its children.
pub fn get_recipe_by_id(id: i64) -> (next: (Session, Action))
    ensures
        (next.0@, next.1@) == start_get(id),
{
    start_load(id)
}

/// Starts a search for the recipes whose name or description contains the
/// query, or that own a child whose description does, where the children
/// are included.
pub fn search_recipes(params: SearchQueryParams) -> (next: (Session, Action))
    ensures
        (next.0@, next.1@) == start_search(params@),
{
    let pattern = like_pattern(params.query.as_str());
    if params.include_ingredients {
        let query = Query::ChildrenLike { kind: ChildKind::Ingredient, pattern: pattern.clone() };
        (
            Session::SearchIngredients {
                pattern,
                include_instructions: params.include_instructions,
            },
            Action::Fetch(query),
        )
    } else if params.include_instructions {
        let query = Query::ChildrenLike { kind: ChildKind::Instruction, pattern: pattern.clone() };
        (Session::SearchInstructions { pattern, found: HashSet::new() }, Action::Fetch(query))
    } else {
        fetch_recipes(pattern, HashSet::new())
    }
}

/// Starts the creation of a recipe with its children.
pub fn create_recipe(request: CreateRecipeRequest) -> (next: (Session, Action))
    ensures
        (next.0@, next.1@) == start_create(request@),
{
    (Session::CreateBegin { request }, Action::Begin)
}

/// Starts the deletion of a recipe.
pub fn delete_recipe(id: i64) -> (next: (Session, Action))
    ensures
        (next.0@, next.1@) == start_delete(id),
{
    (Session::DeleteFind { id }, Action::Fetch(Query::Recipe { id }))
}

/// Starts the update of a recipe and of its children.
pub fn update_recipe(id: i64, request: UpdateRecipeRequest) -> (next: (Session, Action))
    ensures
        (next.0@, next.1@) == start_update(id, request@),
{
    (Session::UpdateBegin { id, request }, Action::Begin)
}

fn advance_load(session: Session, event: Event) -> (next: (Session, Action))
    requires
        session is LoadBase || session is LoadIngredients || session is LoadInstructions,
    ensures
        (next.0@, next.1@) == load_step(session@, event@),
{
    match session {
        Session::LoadBase { id } => match event {
            Event::Recipe(Some(base)) => (
                Session::LoadIngredients { id, base },
                Action::Fetch(Query::Children { kind: ChildKind::Ingredient, recipe_id: id }),
            ),
            Event::Recipe(None) => missing(id),
            _ => fail(),
        },
        Session::LoadIngredients { id, base } => match event {
            Event::Ingredients(rows) => (
                Session::LoadInstructions { id, base, ingredients: rows },
                Action::Fetch(Query::Children { kind: ChildKind::Instruction, recipe_id: id }),
            ),
            _ => fail(),
        },
        Session::LoadInstructions { id, base, ingredients } => match event {
            Event::Instructions(rows) => {
                assert(rows_of(ingredients@) =~= ingredients.deep_view());
                assert(rows_of(rows@) =~= rows.deep_view());
                let ingredients = sort_by_position(ingredients);
                let instructions = sort_by_position(rows);
                assert(rows_of(ingredients@) =~= ingredients.deep_view());
                assert(rows_of(instructions@) =~= instructions.deep_view());
                (
                    Session::Done,
                    Action::Respond(Reply::Recipe(Recipe::new(base, ingredients, instructions))),
                )
            },
            _ => fail(),
        },
        _ => fail(),
    }
}

fn advance_search(session: Session, event: Event) -> (next: (Session, Action))
    requires
        session is SearchIngredients || session is SearchInstructions || session is SearchRecipes,
    ensures
        (next.0@, next.1@) == search_step(session@, event@),
{
    match session {
        Session::SearchIngredients { pattern, include_instructions } => match event {
            Event::Ingredients(rows) => {
                assert(rows_of(rows@) =~= rows.deep_view());
                let found = add_owners(HashSet::new(), rows.as_slice());
                assert(found@ =~= owners_of(rows.deep_view()).to_set());
                if include_instructions {
                    let query = Query::ChildrenLike {
                        kind: ChildKind::Instruction,
                        pattern: pattern.clone(),
                    };
                    (Session::SearchInstructions { pattern, found }, Action::Fetch(query))
                } else {
                    fetch_recipes(pattern, found)
                }
            },
            _ => fail(),
        },
        Session::SearchInstructions { pattern, found } => match event {
            Event::Instructions(rows) => {
                assert(rows_of(rows@) =~= rows.deep_view());
                let found = add_owners(found, rows.as_slice());
                fetch_recipes(pattern, found)
            },
            _ => fail(),
        },
        Session::SearchRecipes => match event {
            Event::Recipes(rows) => (Session::Done, Action::Respond(Reply::Recipes(rows))),
            _ => fail(),
        },
        _ => fail(),
    }
}

fn children_batch(
    id: i64,
    ingredients: Vec<CreateIngredientRequest>,
    instructions: Vec<CreateInstructionRequest>,
) -> (batch: Vec<Statement>)
    ensures
        batch.deep_view() == create_children(
            id,
            ingredients.deep_view(),
            instructions.deep_view(),
        ),
{
    let mut batch: Vec<Statement> = Vec::new();
    assert(drafts(ingredients@) =~= ingredients.deep_view());
    assert(drafts(instructions@) =~= instructions.deep_view());
    if ingredients.len() > 0 {
        let items = child_columns(ingredients.as_slice());
        batch.push(Statement::InsertChildren { kind: ChildKind::Ingredient, recipe_id: id, items });
    }
    let ghost first = batch.deep_view();
    if instructions.len() > 0 {
        let items = child_columns(instructions.as_slice());
        batch.push(
            Statement::InsertChildren { kind: ChildKind::Instruction, recipe_id: id, items },
        );
        assert(batch.deep_view() =~= first.push(
            StatementView::InsertChildren {
                kind: ChildKind::Instruction,
                recipe_id: id,
                items: instructions.deep_view(),
            },
        ));
    }
    assert(batch.deep_view() =~= create_children(
        id,
        ingredients.deep_view(),
        instructions.deep_view(),
    ));
    batch
}

fn advance_create(session: Session, event: Event) -> (next: (Session, Action))
    requires
        session is CreateBegin || session is CreateBase || session is CreateChildren,
    ensures
        (next.0@, next.1@) == create_step(session@, event@),
{
    match session {
        Session::CreateBegin { request } => match event {
            Event::Started => {
                let columns = RecipeColumns {
                    name: request.name,
                    author: request.author,
                    description: request.description,
                    difficulty: request.difficulty,
                    estimated_duration: request.estimated_duration,
                };
                (
                    Session::CreateBase {
                        ingredients: request.ingredients,
                        instructions: request.instructions,
                    },
                    Action::Execute(single(Statement::InsertRecipe { columns })),
                )
            },
            _ => fail(),
        },
        Session::CreateBase { ingredients, instructions } => match event {
            Event::Executed { last_insert_rowid } => (
                Session::CreateChildren { id: last_insert_rowid },
                Action::Execute(children_batch(last_insert_rowid, ingredients, instructions)),
            ),
            _ => fail(),
        },
        Session::CreateChildren { id } => match event {
            Event::Executed { .. } => (Session::Commit { id }, Action::Commit),
            _ => fail(),
        },
        _ => fail(),
    }
}

fn advance_delete(session: Session, event: Event) -> (next: (Session, Action))
    requires
        session is DeleteFind || session is DeleteRow,
    ensures
        (next.0@, next.1@) == delete_step(session@, event@),
{
    match session {
        Session::DeleteFind { id } => match event {
            Event::Recipe(Some(_)) => (
                Session::DeleteRow { id },
                Action::Execute(single(Statement::DeleteRecipe { id })),
            ),
            Event::Recipe(None) => missing(id),
            _ => fail(),
        },
        Session::DeleteRow { id } => match event {
            Event::Executed { .. } => (Session::Done, Action::Respond(Reply::Deleted { id })),
            _ => fail(),
        },
        _ => fail(),
    }
}

fn advance_update(session: Session, event: Event) -> (next: (Session, Action))
    requires
        session is UpdateBegin || session is UpdateBase || session is UpdateIngredientIds
            || session is UpdateIngredients || session is UpdateInstructionIds
            || session is UpdateInstructions,
    ensures
        (next.0@, next.1@) == update_step(session@, event@),
{
    match session {
        Session::UpdateBegin { id, request } => match event {
            Event::Started => {
                let columns = RecipeColumns {
                    name: request.name,
                    author: request.author,
                    description: request.description,
                    difficulty: request.difficulty,
                    estimated_duration: request.estimated_duration,
                };
                (
                    Session::UpdateBase {
                        id,
                        ingredients: request.ingredients,
                        instructions: request.instructions,
                    },
                    Action::Execute(single(Statement::UpdateRecipe { id, columns })),
                )
            },
            _ => fail(),
        },
        Session::UpdateBase { id, ingredients, instructions } => match event {
            Event::Executed { .. } => (
                Session::UpdateIngredientIds { id, ingredients, instructions },
                Action::Fetch(Query::Children { kind: ChildKind::Ingredient, recipe_id: id }),
            ),
            _ => fail(),
        },
        Session::UpdateIngredientIds { id, ingredients, instructions } => match event {
            Event::Ingredients(rows) => {
                assert(rows_of(rows@) =~= rows.deep_view());
                assert(edits(ingredients@) =~= ingredients.deep_view());
                let existing = stored_ids(rows.as_slice());
                let plan = reconcile(ChildKind::Ingredient, id, existing, ingredients.as_slice());
                (Session::UpdateIngredients { id, instructions }, Action::Execute(plan))
            },
            _ => fail(),
        },
        Session::UpdateIngredients { id, instructions } => match event {
            Event::Executed { .. } => (
                Session::UpdateInstructionIds { id, instructions },
                Action::Fetch(Query::Children { kind: ChildKind::Instruction, recipe_id: id }),
            ),
            _ => fail(),
        },
        Session::UpdateInstructionIds { id, instructions } => match event {
            Event::Instructions(rows) => {
                assert(rows_of(rows@) =~= rows.deep_view());
                assert(edits(instructions@) =~= instructions.deep_view());
                let existing = stored_ids(rows.as_slice());
                let plan = reconcile(
                    ChildKind::Instruction,
                    id,
                    existing,
                    instructions.as_slice(),
                );
                (Session::UpdateInstructions { id }, Action::Execute(plan))
            },
            _ => fail(),
        },
        Session::UpdateInstructions { id } => match event {
            Event::Executed { .. } => (Session::Commit { id }, Action::Commit),
            _ => fail(),
        },
        _ => fail(),
    }
}

impl Session {
    /// Whether the operation is over.
    pub fn is_done(&self) -> (done: bool)
        ensures
            done == (self@ is Done),
    {
        match self {
            Session::Done => true,
            _ => false,
        }
    }

    /// Takes what the store answered to the last action and gives the next
    /// state and the next action.
    pub fn advance(self, event: Event) -> (next: (Session, Action))
        ensures
            (next.0@, next.1@) == step(self@, event@),
    {
        match self {
            Session::LoadBase { .. }
            | Session::LoadIngredients { .. }
            | Session::LoadInstructions { .. } => advance_load(self, event),
            Session::SearchIngredients { .. }
            | Session::SearchInstructions { .. }
            | Session::SearchRecipes => advance_search(self, event),
            Session::CreateBegin { .. }
            | Session::CreateBase { .. }
            | Session::CreateChildren { .. } => advance_create(self, event),
            Session::DeleteFind { .. } | Session::DeleteRow { .. } => advance_delete(self, event),
            Session::UpdateBegin { .. }
            | Session::UpdateBase { .. }
            | Session::UpdateIngredientIds { .. }
            | Session::UpdateIngredients { .. }
            | Session::UpdateInstructionIds { .. }
            | Session::UpdateInstructions { .. } => advance_update(self, event),
            Session::Commit { id } => match event {
                Event::Committed => start_load(id),
                _ => fail(),
            },
            Session::Done => fail(),
        }
    }
}

} // verus!
