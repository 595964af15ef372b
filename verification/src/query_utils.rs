//! SQL text and bind parameters accumulated in a `sqlx::QueryBuilder`.

use sqlx::query_builder::Separated;
use sqlx::{QueryBuilder, Sqlite};
use vstd::prelude::*;

verus! {

/// A value bound to one `?` placeholder of a statement.
pub enum SqlArg {
    Null,
    Integer(int),
    Text(Seq<char>),
}

/// A SQLite statement under construction: SQL text with `?` placeholders and
/// the values bound to them. The field is the `sqlx` builder that callers
/// execute; verified code reaches it only through the methods below.
#[verifier::external_body]
pub struct SqlBuilder {
    pub inner: QueryBuilder<'static, Sqlite>,
}

/// The SQL text that a builder holds.
pub uninterp spec fn builder_sql(builder: SqlBuilder) -> Seq<char>;

/// The values bound so far, in placeholder order.
pub uninterp spec fn builder_args(builder: SqlBuilder) -> Seq<SqlArg>;

/// Whether the builder still accepts fragments and values. `sqlx` closes a
/// builder when a query is built from it and reopens it on reset.
pub uninterp spec fn builder_open(builder: SqlBuilder) -> bool;

/// The integers of `values` as bound arguments.
pub open spec fn integer_args(values: Seq<i64>) -> Seq<SqlArg> {
    Seq::new(values.len(), |i: int| SqlArg::Integer(values[i] as int))
}

/// An optional text as a bound argument: `NULL` when absent.
pub open spec fn optional_arg(value: Option<Seq<char>>) -> SqlArg {
    match value {
        Some(text) => SqlArg::Text(text),
        None => SqlArg::Null,
    }
}

impl SqlBuilder {
    /// Trusted: `QueryBuilder::new`. The new builder holds the initial
    /// fragment as its text, binds nothing and is open.
    #[verifier::external_body]
    pub(crate) fn new(init: &str) -> (builder: SqlBuilder)
        ensures
            builder_open(builder),
            builder_sql(builder) == init@,
            builder_args(builder) == Seq::<SqlArg>::empty(),
    {
        SqlBuilder { inner: QueryBuilder::new(init) }
    }

    /// Trusted: `QueryBuilder::push` with a string fragment. It appends the
    /// fragment to the text and binds nothing. `sqlx` panics on a closed
    /// builder.
    #[verifier::external_body]
    pub(crate) fn push(&mut self, sql: &str)
        requires
            builder_open(*old(self)),
        ensures
            builder_open(*final(self)),
            builder_sql(*final(self)) == builder_sql(*old(self)) + sql@,
            builder_args(*final(self)) == builder_args(*old(self)),
    {
        self.inner.push(sql);
    }

    /// Trusted: `QueryBuilder::push_bind` with an `i64`. It binds the value as
    /// the next argument and appends SQLite's placeholder, a single `?`.
    #[verifier::external_body]
    pub(crate) fn push_bind_i64(&mut self, value: i64)
        requires
            builder_open(*old(self)),
        ensures
            builder_open(*final(self)),
            builder_sql(*final(self)) == builder_sql(*old(self)).push('?'),
            builder_args(*final(self)) == builder_args(*old(self)).push(
                SqlArg::Integer(value as int),
            ),
    {
        self.inner.push_bind(value);
    }

    /// Trusted: `QueryBuilder::push_bind` with an owned `String`, bound as
    /// text.
    #[verifier::external_body]
    pub(crate) fn push_bind_text(&mut self, value: String)
        requires
            builder_open(*old(self)),
        ensures
            builder_open(*final(self)),
            builder_sql(*final(self)) == builder_sql(*old(self)).push('?'),
            builder_args(*final(self)) == builder_args(*old(self)).push(SqlArg::Text(value@)),
    {
        self.inner.push_bind(value);
    }

    /// Trusted: `QueryBuilder::push_bind` with an `Option<String>`, bound as
    /// text when present and as `NULL` when absent.
    #[verifier::external_body]
    pub(crate) fn push_bind_optional_text(&mut self, value: Option<String>)
        requires
            builder_open(*old(self)),
        ensures
            builder_open(*final(self)),
            builder_sql(*final(self)) == builder_sql(*old(self)).push('?'),
            builder_args(*final(self)) == builder_args(*old(self)).push(
                optional_arg(value.deep_view()),
            ),
    {
        self.inner.push_bind(value);
    }

    /// An open builder that holds `init` and no bound values.
    pub fn start(init: &str) -> (builder: SqlBuilder)
        ensures
            builder_open(builder),
            builder_sql(builder) == init@,
            builder_args(builder) == Seq::<SqlArg>::empty(),
    {
        SqlBuilder::new(init)
    }
}

/// One parenthesised row of values in a statement under construction, as
/// `sqlx` hands it to the closure of `push_values` or `push_tuples`: a
/// `Separated` over the builder, which puts `, ` between the values of the
/// row.
#[verifier::external_body]
pub struct SqlRow<'a> {
    pub(crate) inner: Separated<'a, 'static, Sqlite, &'static str>,
}

/// The builder that a row writes to.
pub uninterp spec fn row_builder(row: SqlRow<'_>) -> SqlBuilder;

/// Whether a row holds a value already, so that the next value comes behind
/// a separator.
pub uninterp spec fn row_started(row: SqlRow<'_>) -> bool;

/// What stands before a value of a row: `, ` unless it is the first.
pub open spec fn separator(started: bool) -> Seq<char> {
    if started {
        ", "@
    } else {
        Seq::empty()
    }
}

impl SqlRow<'_> {
    /// Trusted: `Separated::push_bind` with an `i64`. It appends the
    /// separator if the row holds a value already, then binds the value as
    /// `QueryBuilder::push_bind` does.
    #[verifier::external_body]
    pub(crate) fn push_bind_i64(&mut self, value: i64)
        requires
            builder_open(row_builder(*old(self))),
        ensures
            builder_open(row_builder(*final(self))),
            row_started(*final(self)),
            builder_sql(row_builder(*final(self))) == builder_sql(row_builder(*old(self)))
                + separator(row_started(*old(self))) + seq!['?'],
            builder_args(row_builder(*final(self))) == builder_args(row_builder(*old(self))).push(
                SqlArg::Integer(value as int),
            ),
    {
        self.inner.push_bind(value);
    }

    /// Trusted: `Separated::push_bind` with an owned `String`, bound as text.
    #[verifier::external_body]
    pub(crate) fn push_bind_text(&mut self, value: String)
        requires
            builder_open(row_builder(*old(self))),
        ensures
            builder_open(row_builder(*final(self))),
            row_started(*final(self)),
            builder_sql(row_builder(*final(self))) == builder_sql(row_builder(*old(self)))
                + separator(row_started(*old(self))) + seq!['?'],
            builder_args(row_builder(*final(self))) == builder_args(row_builder(*old(self))).push(
                SqlArg::Text(value@),
            ),
    {
        self.inner.push_bind(value);
    }
}

/// `?`, `?,?`, `?,?,?`, ...: `n` placeholders separated by commas.
pub open spec fn placeholder_list(n: nat) -> Seq<char>
    decreases n,
{
    if n == 0 {
        Seq::empty()
    } else if n == 1 {
        seq!['?']
    } else {
        placeholder_list((n - 1) as nat) + seq![',', '?']
    }
}

/// The text of an `IN` predicate over `n` bound values; nothing for none.
pub open spec fn in_expression(n: nat) -> Seq<char> {
    if n == 0 {
        Seq::empty()
    } else {
        " IN ("@ + placeholder_list(n) + ") "@
    }
}

/// Appends ` IN (?,..,?) ` to the statement and binds `elements` in order.
/// An empty list leaves the builder as it is, open or closed.
pub fn add_in_expression(builder: &mut SqlBuilder, elements: &[i64])
    requires
        elements@.len() > 0 ==> builder_open(*old(builder)),
    ensures
        builder_open(*final(builder)) == builder_open(*old(builder)),
        builder_sql(*final(builder)) == builder_sql(*old(builder)) + in_expression(
            elements@.len(),
        ),
        builder_args(*final(builder)) == builder_args(*old(builder)) + integer_args(elements@),
{
    if elements.len() == 0 {
        assert(builder_args(*builder) + integer_args(elements@) =~= builder_args(*builder));
        assert(builder_sql(*builder) + in_expression(0) =~= builder_sql(*builder));
        return ;
    }
    let ghost sql0 = builder_sql(*builder);
    let ghost args0 = builder_args(*builder);
    builder.push(" IN (");
    let mut i: usize = 0;
    while i < elements.len()
        invariant
            0 <= i <= elements.len(),
            builder_open(*builder),
            builder_sql(*builder) == sql0 + " IN ("@ + placeholder_list(i as nat) + (if 0 < i
                && i < elements.len() {
                seq![',']
            } else {
                Seq::<char>::empty()
            }),
            builder_args(*builder) == args0 + integer_args(elements@.take(i as int)),
        decreases elements.len() - i,
    {
        let ghost before = builder_sql(*builder);
        builder.push_bind_i64(elements[i]);
        assert(builder_args(*builder) =~= args0 + integer_args(elements@.take(i + 1)));
        assert(before.push('?') =~= sql0 + " IN ("@ + placeholder_list((i + 1) as nat));
        if i < elements.len() - 1 {
            builder.push(",");
            proof {
                reveal_strlit(",");
                assert(","@ =~= seq![',']);
            }
        }
        i += 1;
        assert(builder_sql(*builder) =~= sql0 + " IN ("@ + placeholder_list(i as nat) + (if 0 < i
            && i < elements.len() {
            seq![',']
        } else {
            Seq::<char>::empty()
        }));
    }
    builder.push(") ");
    assert(elements@.take(i as int) =~= elements@);
    assert(builder_sql(*builder) =~= sql0 + in_expression(elements@.len()));
}

} // verus!
