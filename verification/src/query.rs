//! Bind values and the runtime SQL builder of sqlx.

use vstd::prelude::*;
use sqlx::{QueryBuilder, Sqlite};

verus! {

/// A value bound to a `?` placeholder of a statement.
#[derive(Debug, Clone, PartialEq, Eq)]
pub enum BindValue {
    Int(i64),
    OptInt(Option<i64>),
    Text(String),
}

/// A bound value as the contracts see it.
pub enum BindView {
    Int(i64),
    OptInt(Option<i64>),
    Text(Seq<char>),
}

impl View for BindValue {
    type V = BindView;

    open spec fn view(&self) -> BindView {
        match self {
            BindValue::Int(i) => BindView::Int(*i),
            BindValue::OptInt(o) => BindView::OptInt(*o),
            BindValue::Text(t) => BindView::Text(t@),
        }
    }
}

/// A statement under construction: sqlx's runtime `QueryBuilder` for SQLite.
/// Verus does not see inside it; what the library knows of it is the text and
/// the bound arguments named below. The builder is public so that the caller
/// can run the finished statement: Verus refuses every signature that names
/// `QueryBuilder`, so no accessor can hand it out.
#[verifier::external_body]
pub struct SqlQuery {
    pub builder: QueryBuilder<Sqlite>,
}

/// The SQL text accumulated so far by a query builder.
pub uninterp spec fn query_sql(qb: SqlQuery) -> Seq<char>;

/// The arguments bound so far by a query builder, in placeholder order.
pub uninterp spec fn query_args(qb: SqlQuery) -> Seq<BindView>;

/// `QueryBuilder::new`: a builder whose SQL is `init` and which holds no argument.
#[verifier::external_body]
pub(crate) fn qb_new(init: &str) -> (qb: SqlQuery)
    ensures
        query_sql(qb) == init@,
        query_args(qb) == Seq::<BindView>::empty(),
{
    SqlQuery { builder: QueryBuilder::new(init) }
}

/// `QueryBuilder::push`: appends `sql` to the text; the arguments are unchanged.
#[verifier::external_body]
pub(crate) fn qb_push(qb: &mut SqlQuery, sql: &str)
    ensures
        query_sql(*final(qb)) == query_sql(*old(qb)) + sql@,
        query_args(*final(qb)) == query_args(*old(qb)),
{
    qb.builder.push(sql);
}

/// `QueryBuilder::push_bind`: binds `value` and appends SQLite's placeholder `?`.
#[verifier::external_body]
pub(crate) fn qb_push_bind(qb: &mut SqlQuery, value: BindValue)
    ensures
        query_sql(*final(qb)) == query_sql(*old(qb)) + "?"@,
        query_args(*final(qb)) == query_args(*old(qb)).push(value@),
{
    match value {
        BindValue::Int(v) => qb.builder.push_bind(v),
        BindValue::OptInt(v) => qb.builder.push_bind(v),
        BindValue::Text(v) => qb.builder.push_bind(v),
    };
}

/// `QueryBuilder::sql`: the text accumulated so far.
#[verifier::external_body]
pub(crate) fn qb_sql(qb: &SqlQuery) -> (s: String)
    ensures
        s@ == query_sql(*qb),
{
    qb.builder.sql().as_str().to_string()
}

impl SqlQuery {
    /// The SQL text of the statement.
    pub fn sql(&self) -> (s: String)
        ensures
            s@ == query_sql(*self),
    {
        qb_sql(self)
    }
}

} // verus!
