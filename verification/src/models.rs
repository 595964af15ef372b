//! The shapes that cross the boundary: stored rows, the assembled recipe, and
//! the create, update and search requests. Each has a view in which text is a
//! sequence of characters and a list is a sequence.

use vstd::prelude::*;

verus! {

/// The fields of a recipe that a client may set.
pub struct RecipeFields {
    pub name: Seq<char>,
    pub author: Option<Seq<char>>,
    pub description: Option<Seq<char>>,
    pub difficulty: Option<Seq<char>>,
    pub estimated_duration: Option<Seq<char>>,
}

/// A stored recipe without its children.
pub struct BaseRow {
    pub id: i64,
    pub fields: RecipeFields,
}

/// A stored ingredient or instruction.
pub struct ChildRow {
    pub id: i64,
    pub recipe_id: i64,
    pub position: i64,
    pub description: Seq<char>,
}

/// A child as a create request submits it.
pub struct NewChild {
    pub position: i64,
    pub description: Seq<char>,
}

/// A child as an update request submits it: with the identifier of the row to
/// change, or without one for a row to add.
pub struct ChildEdit {
    pub id: Option<i64>,
    pub position: i64,
    pub description: Seq<char>,
}

/// A recipe with its children.
pub struct RecipeView {
    pub base: BaseRow,
    pub ingredients: Seq<ChildRow>,
    pub instructions: Seq<ChildRow>,
}

pub struct CreateRecipeRequestView {
    pub fields: RecipeFields,
    pub ingredients: Seq<NewChild>,
    pub instructions: Seq<NewChild>,
}

pub struct UpdateRecipeRequestView {
    pub fields: RecipeFields,
    pub ingredients: Seq<ChildEdit>,
    pub instructions: Seq<ChildEdit>,
}

pub struct SearchQueryParamsView {
    pub query: Seq<char>,
    pub include_ingredients: bool,
    pub include_instructions: bool,
}

#[derive(Debug, Clone, PartialEq, Eq)]
pub struct RecipeBase {
    pub id: i64,
    pub author: Option<String>,
    pub name: String,
    pub description: Option<String>,
    pub difficulty: Option<String>,
    pub estimated_duration: Option<String>,
}

impl View for RecipeBase {
    type V = BaseRow;

    open spec fn view(&self) -> BaseRow {
        BaseRow {
            id: self.id,
            fields: RecipeFields {
                name: self.name@,
                author: self.author.deep_view(),
                description: self.description.deep_view(),
                difficulty: self.difficulty.deep_view(),
                estimated_duration: self.estimated_duration.deep_view(),
            },
        }
    }
}

impl DeepView for RecipeBase {
    type V = BaseRow;

    open spec fn deep_view(&self) -> BaseRow {
        self@
    }
}

#[derive(Debug, Clone, PartialEq, Eq)]
pub struct Recipe {
    pub id: i64,
    pub author: Option<String>,
    pub name: String,
    pub description: Option<String>,
    pub difficulty: Option<String>,
    pub estimated_duration: Option<String>,
    pub ingredients: Vec<Ingredient>,
    pub instructions: Vec<Instruction>,
}

impl View for Recipe {
    type V = RecipeView;

    open spec fn view(&self) -> RecipeView {
        RecipeView {
            base: BaseRow {
                id: self.id,
                fields: RecipeFields {
                    name: self.name@,
                    author: self.author.deep_view(),
                    description: self.description.deep_view(),
                    difficulty: self.difficulty.deep_view(),
                    estimated_duration: self.estimated_duration.deep_view(),
                },
            },
            ingredients: self.ingredients.deep_view(),
            instructions: self.instructions.deep_view(),
        }
    }
}

impl Recipe {
    /// The recipe made of a stored base row and the children given, in the
    /// order given.
    pub fn new(
        recipe_base: RecipeBase,
        ingredients: Vec<Ingredient>,
        instructions: Vec<Instruction>,
    ) -> (recipe: Recipe)
        ensures
            recipe@ == (RecipeView {
                base: recipe_base@,
                ingredients: ingredients.deep_view(),
                instructions: instructions.deep_view(),
            }),
    {
        Recipe {
            id: recipe_base.id,
            author: recipe_base.author,
            name: recipe_base.name,
            description: recipe_base.description,
            difficulty: recipe_base.difficulty,
            estimated_duration: recipe_base.estimated_duration,
            ingredients,
            instructions,
        }
    }
}

#[derive(Debug, Clone, PartialEq, Eq)]
pub struct Ingredient {
    pub id: i64,
    pub recipe_id: i64,
    pub position: i64,
    pub description: String,
}

impl View for Ingredient {
    type V = ChildRow;

    open spec fn view(&self) -> ChildRow {
        ChildRow {
            id: self.id,
            recipe_id: self.recipe_id,
            position: self.position,
            description: self.description@,
        }
    }
}

impl DeepView for Ingredient {
    type V = ChildRow;

    open spec fn deep_view(&self) -> ChildRow {
        self@
    }
}

#[derive(Debug, Clone, PartialEq, Eq)]
pub struct Instruction {
    pub id: i64,
    pub recipe_id: i64,
    pub position: i64,
    pub description: String,
}

impl View for Instruction {
    type V = ChildRow;

    open spec fn view(&self) -> ChildRow {
        ChildRow {
            id: self.id,
            recipe_id: self.recipe_id,
            position: self.position,
            description: self.description@,
        }
    }
}

impl DeepView for Instruction {
    type V = ChildRow;

    open spec fn deep_view(&self) -> ChildRow {
        self@
    }
}

#[derive(Debug, Clone, PartialEq, Eq)]
pub struct CreateRecipeRequest {
    pub name: String,
    pub author: Option<String>,
    pub description: Option<String>,
    pub difficulty: Option<String>,
    pub estimated_duration: Option<String>,
    pub ingredients: Vec<CreateIngredientRequest>,
    pub instructions: Vec<CreateInstructionRequest>,
}

impl View for CreateRecipeRequest {
    type V = CreateRecipeRequestView;

    open spec fn view(&self) -> CreateRecipeRequestView {
        CreateRecipeRequestView {
            fields: RecipeFields {
                name: self.name@,
                author: self.author.deep_view(),
                description: self.description.deep_view(),
                difficulty: self.difficulty.deep_view(),
                estimated_duration: self.estimated_duration.deep_view(),
            },
            ingredients: self.ingredients.deep_view(),
            instructions: self.instructions.deep_view(),
        }
    }
}

#[derive(Debug, Clone, PartialEq, Eq)]
pub struct CreateIngredientRequest {
    pub position: i64,
    pub description: String,
}

impl View for CreateIngredientRequest {
    type V = NewChild;

    open spec fn view(&self) -> NewChild {
        NewChild { position: self.position, description: self.description@ }
    }
}

impl DeepView for CreateIngredientRequest {
    type V = NewChild;

    open spec fn deep_view(&self) -> NewChild {
        self@
    }
}

#[derive(Debug, Clone, PartialEq, Eq)]
pub struct CreateInstructionRequest {
    pub position: i64,
    pub description: String,
}

impl View for CreateInstructionRequest {
    type V = NewChild;

    open spec fn view(&self) -> NewChild {
        NewChild { position: self.position, description: self.description@ }
    }
}

impl DeepView for CreateInstructionRequest {
    type V = NewChild;

    open spec fn deep_view(&self) -> NewChild {
        self@
    }
}

#[derive(Debug, Clone, PartialEq, Eq)]
pub struct UpdateRecipeRequest {
    pub name: String,
    pub author: Option<String>,
    pub description: Option<String>,
    pub difficulty: Option<String>,
    pub estimated_duration: Option<String>,
    pub ingredients: Vec<UpdateIngredientRequest>,
    pub instructions: Vec<UpdateInstructionRequest>,
}

impl View for UpdateRecipeRequest {
    type V = UpdateRecipeRequestView;

    open spec fn view(&self) -> UpdateRecipeRequestView {
        UpdateRecipeRequestView {
            fields: RecipeFields {
                name: self.name@,
                author: self.author.deep_view(),
                description: self.description.deep_view(),
                difficulty: self.difficulty.deep_view(),
                estimated_duration: self.estimated_duration.deep_view(),
            },
            ingredients: self.ingredients.deep_view(),
            instructions: self.instructions.deep_view(),
        }
    }
}

#[derive(Debug, Clone, PartialEq, Eq)]
pub struct UpdateIngredientRequest {
    /// Present for a row to change, absent for a row to add.
    pub id: Option<i64>,
    pub position: i64,
    pub description: String,
}

impl View for UpdateIngredientRequest {
    type V = ChildEdit;

    open spec fn view(&self) -> ChildEdit {
        ChildEdit {
            id: self.id,
            position: self.position,
            description: self.description@,
        }
    }
}

impl DeepView for UpdateIngredientRequest {
    type V = ChildEdit;

    open spec fn deep_view(&self) -> ChildEdit {
        self@
    }
}

#[derive(Debug, Clone, PartialEq, Eq)]
pub struct UpdateInstructionRequest {
    /// Present for a row to change, absent for a row to add.
    pub id: Option<i64>,
    pub position: i64,
    pub description: String,
}

impl View for UpdateInstructionRequest {
    type V = ChildEdit;

    open spec fn view(&self) -> ChildEdit {
        ChildEdit {
            id: self.id,
            position: self.position,
            description: self.description@,
        }
    }
}

impl DeepView for UpdateInstructionRequest {
    type V = ChildEdit;

    open spec fn deep_view(&self) -> ChildEdit {
        self@
    }
}

/// What a search asks for: the text to look for, and whether the children's
/// descriptions are searched too.
#[derive(Debug, Clone, PartialEq, Eq)]
pub struct SearchQueryParams {
    pub query: String,
    pub include_ingredients: bool,
    pub include_instructions: bool,
}

impl View for SearchQueryParams {
    type V = SearchQueryParamsView;

    open spec fn view(&self) -> SearchQueryParamsView {
        SearchQueryParamsView {
            query: self.query@,
            include_ingredients: self.include_ingredients,
            include_instructions: self.include_instructions,
        }
    }
}

/// A stored child row of either collection.
pub trait ChildRecord {
    /// The row as stored.
    spec fn row(&self) -> ChildRow;

    fn id(&self) -> (id: i64)
        ensures
            id == self.row().id,
    ;

    fn recipe_id(&self) -> (recipe_id: i64)
        ensures
            recipe_id == self.row().recipe_id,
    ;

    fn position(&self) -> (position: i64)
        ensures
            position == self.row().position,
    ;
}

impl ChildRecord for Ingredient {
    open spec fn row(&self) -> ChildRow {
        self@
    }

    fn id(&self) -> (id: i64) {
        self.id
    }

    fn recipe_id(&self) -> (recipe_id: i64) {
        self.recipe_id
    }

    fn position(&self) -> (position: i64) {
        self.position
    }
}

impl ChildRecord for Instruction {
    open spec fn row(&self) -> ChildRow {
        self@
    }

    fn id(&self) -> (id: i64) {
        self.id
    }

    fn recipe_id(&self) -> (recipe_id: i64) {
        self.recipe_id
    }

    fn position(&self) -> (position: i64) {
        self.position
    }
}

/// The rows of a list, in order.
pub open spec fn rows_of<T: ChildRecord>(records: Seq<T>) -> Seq<ChildRow> {
    records.map_values(|record: T| record.row())
}

/// The identifiers of the rows of a list, in order.
pub open spec fn ids_of(rows: Seq<ChildRow>) -> Seq<i64> {
    rows.map_values(|row: ChildRow| row.id)
}

/// The identifiers of the recipes that own the rows of a list, in order.
pub open spec fn owners_of(rows: Seq<ChildRow>) -> Seq<i64> {
    rows.map_values(|row: ChildRow| row.recipe_id)
}

/// The identifiers of stored rows, in order.
pub fn stored_ids<T: ChildRecord>(records: &[T]) -> (ids: Vec<i64>)
    ensures
        ids@ == ids_of(rows_of(records@)),
{
    let mut ids: Vec<i64> = Vec::new();
    let mut i: usize = 0;
    while i < records.len()
        invariant
            0 <= i <= records.len(),
            ids@ == ids_of(rows_of(records@.take(i as int))),
        decreases records.len() - i,
    {
        ids.push(records[i].id());
        i += 1;
        assert(ids@ =~= ids_of(rows_of(records@.take(i as int))));
    }
    assert(records@.take(i as int) =~= records@);
    ids
}

} // verus!
