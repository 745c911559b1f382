//! The post and user stores: the data of a new post, the errors the stores
//! report, and the building of the queries whose shape depends on the fields
//! given.
use vstd::prelude::*;
use vstd::string::*;
use crate::dto::CreatePostRequest;
use crate::text::dec;

pub mod post_repository;
pub mod user_repository;

verus! {

/// A PostgreSQL query under construction: a `sqlx::QueryBuilder<Postgres>`
/// whose text and bound values `builder_sql` and `builder_args` describe.
/// The builder is public so that the program that runs the query can take
/// it; in the library only the query-building functions below change it.
#[verifier::external_body]
pub struct SqlQuery {
    pub builder: sqlx::QueryBuilder<'static, sqlx::Postgres>,
}

/// A value bound to a query.
pub enum SqlArg {
    Int(i64),
    Text(Seq<char>),
}

/// The SQL text a query builder holds.
pub uninterp spec fn builder_sql(b: SqlQuery) -> Seq<char>;

/// The values bound to a query builder, in order.
pub uninterp spec fn builder_args(b: SqlQuery) -> Seq<SqlArg>;

/// The placeholder of the `k`-th bound value in PostgreSQL: `$k`.
pub open spec fn placeholder(k: nat) -> Seq<char> {
    seq!['$'] + dec(k)
}

/// `QueryBuilder::<Postgres>::new`: the text starts as `init`, with no
/// value bound.
#[verifier::external_body]
pub(crate) fn builder_new(init: &str) -> (b: SqlQuery)
    ensures
        builder_sql(b) == init@,
        builder_args(b) == Seq::<SqlArg>::empty(),
{
    SqlQuery { builder: sqlx::QueryBuilder::new(init.to_string()) }
}

/// `QueryBuilder::push`: appends SQL text.
#[verifier::external_body]
pub(crate) fn builder_push(b: &mut SqlQuery, sql: &str)
    ensures
        builder_sql(*final(b)) == builder_sql(*old(b)) + sql@,
        builder_args(*final(b)) == builder_args(*old(b)),
{
    b.builder.push(sql);
}

/// A text PostgreSQL takes as one bound value: its UTF-8 encoding fits in
/// `i32::MAX` bytes (the length a value carries on the wire).
pub open spec fn bindable_text(s: Seq<char>) -> bool {
    vstd::utf8::encode_utf8(s).len() <= i32::MAX
}

/// `QueryBuilder::push_bind` of a text: binds it as the next value and
/// appends its placeholder (`$` and the number of values bound). A longer
/// text makes the encoder refuse it and `push_bind` panic, so it is left out.
#[verifier::external_body]
pub(crate) fn builder_push_bind_text(b: &mut SqlQuery, v: String)
    requires
        bindable_text(v@),
    ensures
        builder_args(*final(b)) == builder_args(*old(b)).push(SqlArg::Text(v@)),
        builder_sql(*final(b)) == builder_sql(*old(b)) + placeholder(builder_args(*old(b)).len() + 1),
{
    b.builder.push_bind(v);
}

/// `QueryBuilder::push_bind` of an integer: binds it as the next value and
/// appends its placeholder.
#[verifier::external_body]
pub(crate) fn builder_push_bind_int(b: &mut SqlQuery, v: i64)
    ensures
        builder_args(*final(b)) == builder_args(*old(b)).push(SqlArg::Int(v)),
        builder_sql(*final(b)) == builder_sql(*old(b)) + placeholder(builder_args(*old(b)).len() + 1),
{
    b.builder.push_bind(v);
}

/// `QueryBuilder::sql`: the text built so far.
#[verifier::external_body]
pub fn builder_text(b: &SqlQuery) -> (r: String)
    ensures
        r@ == builder_sql(*b),
{
    b.builder.sql().to_string()
}

/// `names[0]=$1`, `names[1]=$2`, …, separated by `sep`.
pub open spec fn assignment_list(names: Seq<Seq<char>>, sep: Seq<char>) -> Seq<char>
    decreases names.len(),
{
    if names.len() == 0 {
        Seq::empty()
    } else if names.len() == 1 {
        names[0] + "="@ + placeholder(1)
    } else {
        assignment_list(names.drop_last(), sep) + sep + names.last() + "="@ + placeholder(names.len())
    }
}

/// The data of a new post: its texts and its author.
#[derive(Debug)]
pub struct CreatePostData {
    pub title: String,
    pub content: String,
    pub author: u32,
}

impl CreatePostData {
    pub fn from_request(post_request: CreatePostRequest, author: u32) -> (r: CreatePostData)
        ensures
            r.title@ == post_request.title@,
            r.content@ == post_request.content@,
            r.author == author,
    {
        CreatePostData { title: post_request.title, content: post_request.content, author }
    }
}

/// What a store reports when a query fails: no row where one was expected,
/// or any other failure; each with the store's message.
#[derive(Debug)]
pub enum RepositoryError {
    NotFound(String),
    InternalError(String),
}

impl RepositoryError {
    pub open spec fn message_text(&self) -> Seq<char> {
        match self {
            RepositoryError::NotFound(m) => "Not found. "@ + m@,
            RepositoryError::InternalError(m) => "Internal error. "@ + m@,
        }
    }

    pub fn message(&self) -> (r: String)
        ensures
            r@ == self.message_text(),
    {
        match self {
            RepositoryError::NotFound(m) => String::from_str("Not found. ").concat(m.as_str()),
            RepositoryError::InternalError(m) => String::from_str("Internal error. ").concat(m.as_str()),
        }
    }
}

} // verus!
