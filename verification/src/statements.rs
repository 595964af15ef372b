//! The statements that change stored recipes, as values, and the SQL that
//! each of them becomes.

use crate::models::{CreateIngredientRequest, CreateInstructionRequest, NewChild, RecipeFields};
use crate::query_utils::{
    add_in_expression, builder_args, builder_open, builder_sql, in_expression, integer_args,
    optional_arg, row_builder, row_started, SqlArg, SqlBuilder, SqlRow,
};
use vstd::prelude::*;

verus! {

/// The two child collections of a recipe. They are stored in tables of the
/// same shape.
#[derive(Debug, Clone, Copy, PartialEq, Eq, Structural)]
pub enum ChildKind {
    Ingredient,
    Instruction,
}

/// The settable columns of a recipe row.
#[derive(Debug, Clone, PartialEq, Eq)]
pub struct RecipeColumns {
    pub name: String,
    pub author: Option<String>,
    pub description: Option<String>,
    pub difficulty: Option<String>,
    pub estimated_duration: Option<String>,
}

impl View for RecipeColumns {
    type V = RecipeFields;

    open spec fn view(&self) -> RecipeFields {
        RecipeFields {
            name: self.name@,
            author: self.author.deep_view(),
            description: self.description.deep_view(),
            difficulty: self.difficulty.deep_view(),
            estimated_duration: self.estimated_duration.deep_view(),
        }
    }
}

/// The settable columns of a child row.
#[derive(Debug, Clone, PartialEq, Eq)]
pub struct ChildColumns {
    pub position: i64,
    pub description: String,
}

impl View for ChildColumns {
    type V = NewChild;

    open spec fn view(&self) -> NewChild {
        NewChild { position: self.position, description: self.description@ }
    }
}

impl DeepView for ChildColumns {
    type V = NewChild;

    open spec fn deep_view(&self) -> NewChild {
        self@
    }
}

/// A child as submitted for a new recipe.
pub trait ChildDraft {
    /// The item as submitted.
    spec fn draft(&self) -> NewChild;

    fn columns(&self) -> (columns: ChildColumns)
        ensures
            columns@ == self.draft(),
    ;
}

impl ChildDraft for CreateIngredientRequest {
    open spec fn draft(&self) -> NewChild {
        self@
    }

    fn columns(&self) -> (columns: ChildColumns) {
        ChildColumns { position: self.position, description: self.description.clone() }
    }
}

impl ChildDraft for CreateInstructionRequest {
    open spec fn draft(&self) -> NewChild {
        self@
    }

    fn columns(&self) -> (columns: ChildColumns) {
        ChildColumns { position: self.position, description: self.description.clone() }
    }
}

/// The submitted items of a list, in order.
pub open spec fn drafts<T: ChildDraft>(items: Seq<T>) -> Seq<NewChild> {
    items.map_values(|item: T| item.draft())
}

/// The columns of the submitted items, in order.
pub fn child_columns<T: ChildDraft>(items: &[T]) -> (columns: Vec<ChildColumns>)
    ensures
        columns.deep_view() == drafts(items@),
{
    let mut columns: Vec<ChildColumns> = Vec::new();
    let mut i: usize = 0;
    while i < items.len()
        invariant
            0 <= i <= items.len(),
            columns.deep_view() == drafts(items@.take(i as int)),
        decreases items.len() - i,
    {
        let ghost before = columns.deep_view();
        columns.push(items[i].columns());
        i += 1;
        assert(columns.deep_view() =~= before.push(items@[i - 1].draft()));
        assert(columns.deep_view() =~= drafts(items@.take(i as int)));
    }
    assert(items@.take(i as int) =~= items@);
    columns
}

/// A write, in the model.
pub enum StatementView {
    /// Adds a recipe row; the store assigns its identifier.
    InsertRecipe { fields: RecipeFields },
    /// Adds one child row per item, all owned by `recipe_id`.
    InsertChildren { kind: ChildKind, recipe_id: i64, items: Seq<NewChild> },
    /// Sets the columns of the recipe row `id`, if there is one.
    UpdateRecipe { id: i64, fields: RecipeFields },
    /// Removes the child rows whose identifier is among `ids`.
    DeleteChildren { kind: ChildKind, ids: Seq<i64> },
    /// Sets position and description of the child row `id` of the recipe
    /// `recipe_id`, if there is one. A row of another recipe is left alone.
    UpdateChild { kind: ChildKind, recipe_id: i64, id: i64, item: NewChild },
    /// Adds one child row owned by `recipe_id`.
    InsertChild { kind: ChildKind, recipe_id: i64, item: NewChild },
    /// Removes the recipe row `id` and, with it, the children it owns.
    DeleteRecipe { id: i64 },
}

/// A write against the store.
#[derive(Debug, Clone, PartialEq, Eq)]
pub enum Statement {
    InsertRecipe { columns: RecipeColumns },
    InsertChildren { kind: ChildKind, recipe_id: i64, items: Vec<ChildColumns> },
    UpdateRecipe { id: i64, columns: RecipeColumns },
    DeleteChildren { kind: ChildKind, ids: Vec<i64> },
    UpdateChild { kind: ChildKind, recipe_id: i64, id: i64, child: ChildColumns },
    InsertChild { kind: ChildKind, recipe_id: i64, child: ChildColumns },
    DeleteRecipe { id: i64 },
}

impl View for Statement {
    type V = StatementView;

    open spec fn view(&self) -> StatementView {
        match *self {
            Statement::InsertRecipe { columns } => StatementView::InsertRecipe { fields: columns@ },
            Statement::InsertChildren { kind, recipe_id, items } => StatementView::InsertChildren {
                kind,
                recipe_id,
                items: items.deep_view(),
            },
            Statement::UpdateRecipe { id, columns } => StatementView::UpdateRecipe {
                id,
                fields: columns@,
            },
            Statement::DeleteChildren { kind, ids } => StatementView::DeleteChildren {
                kind,
                ids: ids@,
            },
            Statement::UpdateChild { kind, recipe_id, id, child } => StatementView::UpdateChild {
                kind,
                recipe_id,
                id,
                item: child@,
            },
            Statement::InsertChild { kind, recipe_id, child } => StatementView::InsertChild {
                kind,
                recipe_id,
                item: child@,
            },
            Statement::DeleteRecipe { id } => StatementView::DeleteRecipe { id },
        }
    }
}

impl DeepView for Statement {
    type V = StatementView;

    open spec fn deep_view(&self) -> StatementView {
        self@
    }
}

impl ChildKind {
    /// The table that holds the collection.
    pub open spec fn table(self) -> Seq<char> {
        match self {
            ChildKind::Ingredient => "ingredients"@,
            ChildKind::Instruction => "instructions"@,
        }
    }

    pub fn table_name(self) -> (name: &'static str)
        ensures
            name@ == self.table(),
    {
        match self {
            ChildKind::Ingredient => "ingredients",
            ChildKind::Instruction => "instructions",
        }
    }
}

/// `(?, ?, ?)`, `(?, ?, ?), (?, ?, ?)`, ...: `n` rows of three placeholders.
pub open spec fn values_list(n: nat) -> Seq<char>
    decreases n,
{
    if n == 0 {
        Seq::empty()
    } else if n == 1 {
        "(?, ?, ?)"@
    } else {
        values_list((n - 1) as nat) + ", (?, ?, ?)"@
    }
}

/// The values bound for the rows of a bulk insert: owner, position and
/// description of each item, item after item.
pub open spec fn values_args(recipe_id: i64, items: Seq<NewChild>) -> Seq<SqlArg>
    decreases items.len(),
{
    if items.len() == 0 {
        Seq::empty()
    } else {
        values_args(recipe_id, items.drop_last()) + seq![
            SqlArg::Integer(recipe_id as int),
            SqlArg::Integer(items.last().position as int),
            SqlArg::Text(items.last().description),
        ]
    }
}

/// The SQL text of a write.
pub open spec fn statement_sql(statement: StatementView) -> Seq<char> {
    match statement {
        StatementView::InsertRecipe { .. } =>
            "INSERT INTO recipes (name, author, description, difficulty, estimated_duration) VALUES (?, ?, ?, ?, ?)"@,
        StatementView::InsertChildren { kind, items, .. } => "INSERT INTO "@ + kind.table()
            + " (recipe_id, position, description) VALUES "@ + values_list(items.len()),
        StatementView::UpdateRecipe { .. } =>
            "UPDATE recipes SET name = ?, description = ?, author = ?, difficulty = ?, estimated_duration = ? WHERE id = ?"@,
        StatementView::DeleteChildren { kind, ids } => "DELETE FROM "@ + kind.table() + " WHERE id"@
            + in_expression(ids.len()),
        StatementView::UpdateChild { kind, .. } => "UPDATE "@ + kind.table()
            + " SET position = ?, description = ? WHERE id = ? AND recipe_id = ?"@,
        StatementView::InsertChild { kind, .. } => "INSERT INTO "@ + kind.table()
            + " (recipe_id, position, description) VALUES (?, ?, ?)"@,
        StatementView::DeleteRecipe { .. } => "DELETE FROM recipes WHERE id = ?"@,
    }
}

/// The values bound to the placeholders of a write, in order.
pub open spec fn statement_args(statement: StatementView) -> Seq<SqlArg> {
    match statement {
        StatementView::InsertRecipe { fields } => seq![
            SqlArg::Text(fields.name),
            optional_arg(fields.author),
            optional_arg(fields.description),
            optional_arg(fields.difficulty),
            optional_arg(fields.estimated_duration),
        ],
        StatementView::InsertChildren { recipe_id, items, .. } => values_args(recipe_id, items),
        StatementView::UpdateRecipe { id, fields } => seq![
            SqlArg::Text(fields.name),
            optional_arg(fields.description),
            optional_arg(fields.author),
            optional_arg(fields.difficulty),
            optional_arg(fields.estimated_duration),
            SqlArg::Integer(id as int),
        ],
        StatementView::DeleteChildren { ids, .. } => integer_args(ids),
        StatementView::UpdateChild { recipe_id, id, item, .. } => seq![
            SqlArg::Integer(item.position as int),
            SqlArg::Text(item.description),
            SqlArg::Integer(id as int),
            SqlArg::Integer(recipe_id as int),
        ],
        StatementView::InsertChild { recipe_id, item, .. } => seq![
            SqlArg::Integer(recipe_id as int),
            SqlArg::Integer(item.position as int),
            SqlArg::Text(item.description),
        ],
        StatementView::DeleteRecipe { id } => seq![SqlArg::Integer(id as int)],
    }
}

fn insert_recipe_sql(columns: RecipeColumns) -> (builder: SqlBuilder)
    ensures
        builder_open(builder),
        builder_sql(builder) == statement_sql(StatementView::InsertRecipe { fields: columns@ }),
        builder_args(builder) == statement_args(StatementView::InsertRecipe { fields: columns@ }),
{
    let mut builder = SqlBuilder::new(
        "INSERT INTO recipes (name, author, description, difficulty, estimated_duration) VALUES (",
    );
    builder.push_bind_text(columns.name);
    builder.push(", ");
    builder.push_bind_optional_text(columns.author);
    builder.push(", ");
    builder.push_bind_optional_text(columns.description);
    builder.push(", ");
    builder.push_bind_optional_text(columns.difficulty);
    builder.push(", ");
    builder.push_bind_optional_text(columns.estimated_duration);
    builder.push(")");
    proof {
        reveal_strlit(
            "INSERT INTO recipes (name, author, description, difficulty, estimated_duration) VALUES (",
        );
        reveal_strlit(", ");
        reveal_strlit(")");
        reveal_strlit(
            "INSERT INTO recipes (name, author, description, difficulty, estimated_duration) VALUES (?, ?, ?, ?, ?)",
        );
        assert(builder_sql(builder) =~= statement_sql(
            StatementView::InsertRecipe { fields: columns@ },
        ));
        assert(builder_args(builder) =~= statement_args(
            StatementView::InsertRecipe { fields: columns@ },
        ));
    }
    builder
}

fn update_recipe_sql(id: i64, columns: RecipeColumns) -> (builder: SqlBuilder)
    ensures
        builder_open(builder),
        builder_sql(builder) == statement_sql(StatementView::UpdateRecipe { id, fields: columns@ }),
        builder_args(builder) == statement_args(
            StatementView::UpdateRecipe { id, fields: columns@ },
        ),
{
    let mut builder = SqlBuilder::new("UPDATE recipes SET name = ");
    builder.push_bind_text(columns.name);
    builder.push(", description = ");
    builder.push_bind_optional_text(columns.description);
    builder.push(", author = ");
    builder.push_bind_optional_text(columns.author);
    builder.push(", difficulty = ");
    builder.push_bind_optional_text(columns.difficulty);
    builder.push(", estimated_duration = ");
    builder.push_bind_optional_text(columns.estimated_duration);
    builder.push(" WHERE id = ");
    builder.push_bind_i64(id);
    proof {
        reveal_strlit("UPDATE recipes SET name = ");
        reveal_strlit(", description = ");
        reveal_strlit(", author = ");
        reveal_strlit(", difficulty = ");
        reveal_strlit(", estimated_duration = ");
        reveal_strlit(" WHERE id = ");
        reveal_strlit(
            "UPDATE recipes SET name = ?, description = ?, author = ?, difficulty = ?, estimated_duration = ? WHERE id = ?",
        );
        assert(builder_sql(builder) =~= statement_sql(
            StatementView::UpdateRecipe { id, fields: columns@ },
        ));
        assert(builder_args(builder) =~= statement_args(
            StatementView::UpdateRecipe { id, fields: columns@ },
        ));
    }
    builder
}

/// Binds owner, position and description of one child as one row of a bulk
/// insert.
pub(crate) fn bind_child_row(row: &mut SqlRow, recipe_id: i64, child: ChildColumns)
    requires
        builder_open(row_builder(*old(row))),
        !row_started(*old(row)),
    ensures
        builder_open(row_builder(*final(row))),
        builder_sql(row_builder(*final(row))) == builder_sql(row_builder(*old(row))) + "?, ?, ?"@,
        builder_args(row_builder(*final(row))) == builder_args(row_builder(*old(row))) + seq![
            SqlArg::Integer(recipe_id as int),
            SqlArg::Integer(child.position as int),
            SqlArg::Text(child.description@),
        ],
{
    row.push_bind_i64(recipe_id);
    row.push_bind_i64(child.position);
    row.push_bind_text(child.description);
    proof {
        reveal_strlit(", ");
        reveal_strlit("?, ?, ?");
        assert(builder_sql(row_builder(*row)) =~= builder_sql(row_builder(*old(row)))
            + "?, ?, ?"@);
        assert(builder_args(row_builder(*row)) =~= builder_args(row_builder(*old(row))) + seq![
            SqlArg::Integer(recipe_id as int),
            SqlArg::Integer(child.position as int),
            SqlArg::Text(child.description@),
        ]);
    }
}

/// Trusted: `QueryBuilder::push_values` over the children, with
/// `bind_child_row` as the closure. It appends `VALUES `, then for each
/// item a parenthesised row that the closure fills, the rows separated by
/// `, `. `sqlx` refuses an empty list in a debug build.
#[verifier::external_body]
fn push_child_values(builder: &mut SqlBuilder, recipe_id: i64, items: Vec<ChildColumns>)
    requires
        builder_open(*old(builder)),
        items@.len() > 0,
    ensures
        builder_open(*final(builder)),
        builder_sql(*final(builder)) == builder_sql(*old(builder)) + "VALUES "@ + values_list(
            items@.len(),
        ),
        builder_args(*final(builder)) == builder_args(*old(builder)) + values_args(
            recipe_id,
            items.deep_view(),
        ),
{
    builder.inner.push_values(
        items,
        |row, item| bind_child_row(&mut SqlRow { inner: row }, recipe_id, item),
    );
}

fn insert_children_sql(kind: ChildKind, recipe_id: i64, items: Vec<ChildColumns>) -> (builder:
    SqlBuilder)
    ensures
        builder_open(builder),
        builder_sql(builder) == statement_sql(
            StatementView::InsertChildren { kind, recipe_id, items: items.deep_view() },
        ),
        builder_args(builder) == statement_args(
            StatementView::InsertChildren { kind, recipe_id, items: items.deep_view() },
        ),
{
    let mut builder = SqlBuilder::new("INSERT INTO ");
    builder.push(kind.table_name());
    builder.push(" (recipe_id, position, description) ");
    let ghost head = builder_sql(builder);
    let ghost rows = items.deep_view();
    if items.len() == 0 {
        builder.push("VALUES ");
        assert(values_args(recipe_id, rows) =~= Seq::<SqlArg>::empty());
    } else {
        push_child_values(&mut builder, recipe_id, items);
    }
    proof {
        reveal_strlit(" (recipe_id, position, description) ");
        reveal_strlit("VALUES ");
        reveal_strlit(" (recipe_id, position, description) VALUES ");
        assert(builder_sql(builder) =~= "INSERT INTO "@ + kind.table()
            + " (recipe_id, position, description) VALUES "@ + values_list(rows.len()));
        assert(builder_args(builder) =~= values_args(recipe_id, rows));
    }
    builder
}

fn delete_children_sql(kind: ChildKind, ids: Vec<i64>) -> (builder: SqlBuilder)
    ensures
        builder_open(builder),
        builder_sql(builder) == statement_sql(StatementView::DeleteChildren { kind, ids: ids@ }),
        builder_args(builder) == statement_args(StatementView::DeleteChildren { kind, ids: ids@ }),
{
    let mut builder = SqlBuilder::new("DELETE FROM ");
    builder.push(kind.table_name());
    builder.push(" WHERE id");
    add_in_expression(&mut builder, ids.as_slice());
    proof {
        assert(builder_args(builder) =~= integer_args(ids@));
    }
    builder
}

fn update_child_sql(kind: ChildKind, recipe_id: i64, id: i64, child: ChildColumns) -> (builder:
    SqlBuilder)
    ensures
        builder_open(builder),
        builder_sql(builder) == statement_sql(
            StatementView::UpdateChild { kind, recipe_id, id, item: child@ },
        ),
        builder_args(builder) == statement_args(
            StatementView::UpdateChild { kind, recipe_id, id, item: child@ },
        ),
{
    let mut builder = SqlBuilder::new("UPDATE ");
    builder.push(kind.table_name());
    builder.push(" SET position = ");
    builder.push_bind_i64(child.position);
    builder.push(", description = ");
    builder.push_bind_text(child.description);
    builder.push(" WHERE id = ");
    builder.push_bind_i64(id);
    builder.push(" AND recipe_id = ");
    builder.push_bind_i64(recipe_id);
    proof {
        reveal_strlit(" SET position = ");
        reveal_strlit(", description = ");
        reveal_strlit(" WHERE id = ");
        reveal_strlit(" AND recipe_id = ");
        reveal_strlit(" SET position = ?, description = ? WHERE id = ? AND recipe_id = ?");
        assert(builder_sql(builder) =~= statement_sql(
            StatementView::UpdateChild { kind, recipe_id, id, item: child@ },
        ));
        assert(builder_args(builder) =~= statement_args(
            StatementView::UpdateChild { kind, recipe_id, id, item: child@ },
        ));
    }
    builder
}

fn insert_child_sql(kind: ChildKind, recipe_id: i64, child: ChildColumns) -> (builder: SqlBuilder)
    ensures
        builder_open(builder),
        builder_sql(builder) == statement_sql(
            StatementView::InsertChild { kind, recipe_id, item: child@ },
        ),
        builder_args(builder) == statement_args(
            StatementView::InsertChild { kind, recipe_id, item: child@ },
        ),
{
    let mut builder = SqlBuilder::new("INSERT INTO ");
    builder.push(kind.table_name());
    builder.push(" (recipe_id, position, description) VALUES (");
    builder.push_bind_i64(recipe_id);
    builder.push(", ");
    builder.push_bind_i64(child.position);
    builder.push(", ");
    builder.push_bind_text(child.description);
    builder.push(")");
    proof {
        reveal_strlit(" (recipe_id, position, description) VALUES (");
        reveal_strlit(", ");
        reveal_strlit(")");
        reveal_strlit(" (recipe_id, position, description) VALUES (?, ?, ?)");
        assert(builder_sql(builder) =~= statement_sql(
            StatementView::InsertChild { kind, recipe_id, item: child@ },
        ));
        assert(builder_args(builder) =~= statement_args(
            StatementView::InsertChild { kind, recipe_id, item: child@ },
        ));
    }
    builder
}

impl Statement {
    /// The statement as SQL text with its bound values.
    pub fn to_sql(self) -> (builder: SqlBuilder)
        ensures
            builder_open(builder),
            builder_sql(builder) == statement_sql(self@),
            builder_args(builder) == statement_args(self@),
    {
        match self {
            Statement::InsertRecipe { columns } => insert_recipe_sql(columns),
            Statement::InsertChildren { kind, recipe_id, items } => insert_children_sql(
                kind,
                recipe_id,
                items,
            ),
            Statement::UpdateRecipe { id, columns } => update_recipe_sql(id, columns),
            Statement::DeleteChildren { kind, ids } => delete_children_sql(kind, ids),
            Statement::UpdateChild { kind, recipe_id, id, child } => update_child_sql(
                kind,
                recipe_id,
                id,
                child,
            ),
            Statement::InsertChild { kind, recipe_id, child } => insert_child_sql(
                kind,
                recipe_id,
                child,
            ),
            Statement::DeleteRecipe { id } => {
                let mut builder = SqlBuilder::new("DELETE FROM recipes WHERE id = ");
                builder.push_bind_i64(id);
                proof {
                    reveal_strlit("DELETE FROM recipes WHERE id = ");
                    reveal_strlit("DELETE FROM recipes WHERE id = ?");
                    assert(builder_sql(builder) =~= statement_sql(self@));
                    assert(builder_args(builder) =~= statement_args(self@));
                }
                builder
            },
        }
    }
}

} // verus!
