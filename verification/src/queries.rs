//! The reads against the store, as values, and the SQL that each of them
//! becomes.

use crate::query_utils::{
    builder_args, builder_open, builder_sql, integer_args, row_builder, row_started, SqlArg,
    SqlBuilder, SqlRow,
};
use crate::statements::ChildKind;
use std::collections::HashSet;
use vstd::prelude::*;
use vstd::std_specs::hash::group_hash_axioms;

verus! {

/// A read, in the model.
pub enum QueryView {
    /// The recipe row with an identifier.
    Recipe { id: i64 },
    /// The children that a recipe owns.
    Children { kind: ChildKind, recipe_id: i64 },
    /// The children whose description matches a `LIKE` pattern, in which
    /// `\` is the escape character.
    ChildrenLike { kind: ChildKind, pattern: Seq<char> },
    /// The recipes whose name or description matches a `LIKE` pattern or
    /// whose identifier is among `ids`, by ascending identifier.
    RecipesLike { pattern: Seq<char>, ids: Set<i64> },
}

/// A read against the store.
#[derive(Debug, PartialEq, Eq)]
pub enum Query {
    Recipe { id: i64 },
    Children { kind: ChildKind, recipe_id: i64 },
    ChildrenLike { kind: ChildKind, pattern: String },
    RecipesLike { pattern: String, ids: HashSet<i64> },
}

impl View for Query {
    type V = QueryView;

    open spec fn view(&self) -> QueryView {
        match *self {
            Query::Recipe { id } => QueryView::Recipe { id },
            Query::Children { kind, recipe_id } => QueryView::Children { kind, recipe_id },
            Query::ChildrenLike { kind, pattern } => QueryView::ChildrenLike {
                kind,
                pattern: pattern@,
            },
            Query::RecipesLike { pattern, ids } => QueryView::RecipesLike {
                pattern: pattern@,
                ids: ids@,
            },
        }
    }
}

/// `(?)`, `(?), (?)`, ...: `n` one-column rows.
pub open spec fn tuple_list(n: nat) -> Seq<char>
    decreases n,
{
    if n == 0 {
        Seq::empty()
    } else if n == 1 {
        "(?)"@
    } else {
        tuple_list((n - 1) as nat) + ", (?)"@
    }
}

/// The clause that admits the recipes with one of the identifiers of a set,
/// each bound once; nothing for the empty set.
pub open spec fn id_clause(ids: Set<i64>) -> Seq<char> {
    if ids.is_empty() {
        Seq::empty()
    } else {
        " OR id IN  ("@ + tuple_list(ids.len()) + ") "@
    }
}

/// The SQL text of a read.
pub open spec fn query_sql(query: QueryView) -> Seq<char> {
    match query {
        QueryView::Recipe { .. } =>
            "SELECT id, name, author, description, difficulty, estimated_duration FROM recipes WHERE id = ?"@,
        QueryView::Children { kind, .. } => "SELECT id, recipe_id, position, description FROM "@
            + kind.table() + " WHERE recipe_id = ?"@,
        QueryView::ChildrenLike { kind, .. } => "SELECT * FROM "@ + kind.table()
            + " WHERE description LIKE ? ESCAPE '\\'"@,
        QueryView::RecipesLike { ids, .. } =>
            "SELECT id, author, name, description, difficulty, estimated_duration FROM recipes WHERE name LIKE ? ESCAPE '\\' OR description LIKE ? ESCAPE '\\'"@
            + id_clause(ids) + " ORDER BY id ASC"@,
    }
}

/// Whether `args` are the values bound to the placeholders of a read, in
/// order. The identifiers of a search are bound each once, in the order in
/// which the set hands them out, which is not fixed.
pub open spec fn query_binds(query: QueryView, args: Seq<SqlArg>) -> bool {
    match query {
        QueryView::Recipe { id } => args == seq![SqlArg::Integer(id as int)],
        QueryView::Children { recipe_id, .. } => args == seq![SqlArg::Integer(recipe_id as int)],
        QueryView::ChildrenLike { pattern, .. } => args == seq![SqlArg::Text(pattern)],
        QueryView::RecipesLike { pattern, ids } => binds_each_once(
            ids,
            seq![SqlArg::Text(pattern), SqlArg::Text(pattern)],
            args,
        ),
    }
}

/// Whether a sequence holds the elements of a set, each once.
pub open spec fn walks(order: Seq<i64>, ids: Set<i64>) -> bool {
    order.no_duplicates() && order.to_set() == ids
}

/// Whether `after` is `before` followed by the identifiers of a set, each
/// bound once, in some order.
pub open spec fn binds_each_once(ids: Set<i64>, before: Seq<SqlArg>, after: Seq<SqlArg>) -> bool {
    exists|order: Seq<i64>| walks(order, ids) && after == before + integer_args(order)
}

/// Binds one identifier as a row of one value.
pub(crate) fn bind_id(row: &mut SqlRow, id: i64)
    requires
        builder_open(row_builder(*old(row))),
        !row_started(*old(row)),
    ensures
        builder_open(row_builder(*final(row))),
        builder_sql(row_builder(*final(row))) == builder_sql(row_builder(*old(row))).push('?'),
        builder_args(row_builder(*final(row))) == builder_args(row_builder(*old(row))).push(
            SqlArg::Integer(id as int),
        ),
{
    row.push_bind_i64(id);
    assert(builder_sql(row_builder(*row)) =~= builder_sql(row_builder(*old(row))).push('?'));
}

/// Trusted: `QueryBuilder::push_tuples` over a set of identifiers, with
/// `bind_id` as the closure. It appends ` (`, then for each identifier a
/// parenthesised row that the closure fills, the rows separated by `, `,
/// then `) `. The set hands out each identifier once, in an order of its
/// own.
#[verifier::external_body]
fn push_id_tuples(builder: &mut SqlBuilder, ids: HashSet<i64>)
    requires
        builder_open(*old(builder)),
    ensures
        builder_open(*final(builder)),
        builder_sql(*final(builder)) == builder_sql(*old(builder)) + " ("@ + tuple_list(
            ids@.len(),
        ) + ") "@,
        binds_each_once(ids@, builder_args(*old(builder)), builder_args(*final(builder))),
{
    builder.inner.push_tuples(ids, |row, id| bind_id(&mut SqlRow { inner: row }, id));
}

fn recipes_like_sql(pattern: String, ids: HashSet<i64>) -> (builder: SqlBuilder)
    ensures
        builder_open(builder),
        builder_sql(builder) == query_sql(QueryView::RecipesLike { pattern: pattern@, ids: ids@ }),
        query_binds(QueryView::RecipesLike { pattern: pattern@, ids: ids@ }, builder_args(builder)),
{
    broadcast use group_hash_axioms;

    let ghost found = ids@;
    let mut builder = SqlBuilder::new(
        "SELECT id, author, name, description, difficulty, estimated_duration FROM recipes WHERE name LIKE ",
    );
    builder.push_bind_text(pattern.clone());
    builder.push(" ESCAPE '\\' OR description LIKE ");
    builder.push_bind_text(pattern);
    builder.push(" ESCAPE '\\'");
    let ghost head = builder_sql(builder);
    let ghost bound = builder_args(builder);
    proof {
        reveal_strlit(
            "SELECT id, author, name, description, difficulty, estimated_duration FROM recipes WHERE name LIKE ",
        );
        reveal_strlit(" ESCAPE '\\' OR description LIKE ");
        reveal_strlit(" ESCAPE '\\'");
        reveal_strlit(
            "SELECT id, author, name, description, difficulty, estimated_duration FROM recipes WHERE name LIKE ? ESCAPE '\\' OR description LIKE ? ESCAPE '\\'",
        );
        assert(head
            =~= "SELECT id, author, name, description, difficulty, estimated_duration FROM recipes WHERE name LIKE ? ESCAPE '\\' OR description LIKE ? ESCAPE '\\'"@);
        assert(bound =~= seq![SqlArg::Text(pattern@), SqlArg::Text(pattern@)]);
    }
    if !ids.is_empty() {
        builder.push(" OR id IN ");
        push_id_tuples(&mut builder, ids);
        proof {
            reveal_strlit(" OR id IN ");
            reveal_strlit(" (");
            reveal_strlit(" OR id IN  (");
            assert(builder_sql(builder) =~= head + id_clause(found));
        }
    } else {
        proof {
            let nothing = Seq::<i64>::empty();
            assert(found =~= Set::<i64>::empty());
            assert(nothing.to_set() =~= found);
            assert(walks(nothing, found));
            assert(builder_args(builder) =~= bound + integer_args(nothing));
            assert(builder_sql(builder) =~= head + id_clause(found));
        }
    }
    builder.push(" ORDER BY id ASC");
    builder
}

impl Query {
    /// The query as SQL text with its bound values.
    pub fn to_sql(self) -> (builder: SqlBuilder)
        ensures
            builder_open(builder),
            builder_sql(builder) == query_sql(self@),
            query_binds(self@, builder_args(builder)),
    {
        match self {
            Query::Recipe { id } => {
                let mut builder = SqlBuilder::new(
                    "SELECT id, name, author, description, difficulty, estimated_duration FROM recipes WHERE id = ",
                );
                builder.push_bind_i64(id);
                proof {
                    reveal_strlit(
                        "SELECT id, name, author, description, difficulty, estimated_duration FROM recipes WHERE id = ",
                    );
                    reveal_strlit(
                        "SELECT id, name, author, description, difficulty, estimated_duration FROM recipes WHERE id = ?",
                    );
                    assert(builder_sql(builder) =~= query_sql(self@));
                    assert(builder_args(builder) =~= seq![SqlArg::Integer(id as int)]);
                }
                builder
            },
            Query::Children { kind, recipe_id } => {
                let mut builder = SqlBuilder::new("SELECT id, recipe_id, position, description FROM ");
                builder.push(kind.table_name());
                builder.push(" WHERE recipe_id = ");
                builder.push_bind_i64(recipe_id);
                proof {
                    reveal_strlit(" WHERE recipe_id = ");
                    reveal_strlit(" WHERE recipe_id = ?");
                    assert(builder_sql(builder) =~= query_sql(self@));
                    assert(builder_args(builder) =~= seq![SqlArg::Integer(recipe_id as int)]);
                }
                builder
            },
            Query::ChildrenLike { kind, pattern } => {
                let mut builder = SqlBuilder::new("SELECT * FROM ");
                builder.push(kind.table_name());
                builder.push(" WHERE description LIKE ");
                builder.push_bind_text(pattern);
                builder.push(" ESCAPE '\\'");
                proof {
                    reveal_strlit(" WHERE description LIKE ");
                    reveal_strlit(" ESCAPE '\\'");
                    reveal_strlit(" WHERE description LIKE ? ESCAPE '\\'");
                    assert(builder_sql(builder) =~= query_sql(self@));
                    assert(builder_args(builder) =~= seq![SqlArg::Text(pattern@)]);
                }
                builder
            },
            Query::RecipesLike { pattern, ids } => recipes_like_sql(pattern, ids),
        }
    }
}

} // verus!
