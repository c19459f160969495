//! The slice of sqlx's `QueryBuilder` that the library builds its queries
//! with: the outside type, names for what a builder holds, and one trusted
//! wrapper for each builder method that the queries call.

use sqlx::{QueryBuilder, Sqlite};
use vstd::prelude::*;

verus! {

/// A SQL query under construction: sqlx's `QueryBuilder` for SQLite.
/// Verus sees nothing inside it; what the library knows of it is what the
/// names below say, as the wrappers keep them. The builder is a public field
/// because the caller builds and runs the query: no function here can take
/// or give sqlx's type itself. The names describe the builder as the
/// library's functions hand it over; a change that the caller makes to the
/// field afterwards is not tracked by them.
#[verifier::external_body]
pub struct SqlQuery {
    pub builder: QueryBuilder<'static, Sqlite>,
}

/// The SQL text that a builder holds.
pub uninterp spec fn query_text(qb: SqlQuery) -> Seq<char>;

/// The values bound to the builder's placeholders, in order.
pub uninterp spec fn query_arguments(qb: SqlQuery) -> Seq<int>;

/// Whether the builder still accepts pushes (it has not been built).
pub uninterp spec fn query_open(qb: SqlQuery) -> bool;

/// `QueryBuilder::new`: the text is the initial fragment, nothing is bound
/// and the builder accepts pushes.
#[verifier::external_body]
pub(crate) fn new_query(init: &str) -> (qb: SqlQuery)
    ensures
        query_text(qb) == init@,
        query_arguments(qb) == Seq::<int>::empty(),
        query_open(qb),
{
    SqlQuery { builder: QueryBuilder::new(init) }
}

/// `QueryBuilder::push` with a string: the string is appended to the text,
/// the bound values stay as they were. It panics on a builder that was
/// built, hence the `requires`.
#[verifier::external_body]
pub(crate) fn push_sql(qb: &mut SqlQuery, sql: &str)
    requires
        query_open(*old(qb)),
    ensures
        query_text(*final(qb)) == query_text(*old(qb)) + sql@,
        query_arguments(*final(qb)) == query_arguments(*old(qb)),
        query_open(*final(qb)),
{
    qb.builder.push(sql);
}

/// `QueryBuilder::push_bind` with a `u8`: SQLite's placeholder `?` is
/// appended to the text and the value is bound after the others (sqlx-sqlite
/// encodes a `u8` as an integer argument). It panics on a builder that was
/// built, hence the `requires`.
#[verifier::external_body]
pub(crate) fn push_bind_u8(qb: &mut SqlQuery, value: u8)
    requires
        query_open(*old(qb)),
    ensures
        query_text(*final(qb)) == query_text(*old(qb)) + "?"@,
        query_arguments(*final(qb)) == query_arguments(*old(qb)).push(value as int),
        query_open(*final(qb)),
{
    qb.builder.push_bind(value);
}

} // verus!
