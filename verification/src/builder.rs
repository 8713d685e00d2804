//! diesel's PostgreSQL query builder, as verified code sees it.
//!
//! The builder is diesel's own. Its contents are known here by two names,
//! [`builder_sql`] and [`builder_binds`], and by what the functions of this
//! module state of them. Those statements are taken from diesel's source
//! and are not proved.

use diesel::pg::PgQueryBuilder;
use diesel::query_builder::QueryBuilder;
use vstd::prelude::*;

verus! {

/// `diesel::pg::PgQueryBuilder`, the buffer in which diesel assembles the
/// text of a PostgreSQL statement.
#[verifier::external_type_specification]
#[verifier::external_body]
pub struct ExPgQueryBuilder(diesel::pg::PgQueryBuilder);

/// `diesel::result::Error`, the error of diesel's `QueryResult`.
#[verifier::external_type_specification]
#[verifier::external_body]
pub struct ExQueryError(diesel::result::Error);

/// The SQL text that a builder holds.
pub uninterp spec fn builder_sql(builder: PgQueryBuilder) -> Seq<char>;

/// The number of bind parameters that a builder has written so far, which
/// is also the number of the last placeholder in its text.
pub uninterp spec fn builder_binds(builder: PgQueryBuilder) -> u32;

/// The character of a decimal digit.
pub open spec fn digit(d: nat) -> char
    recommends
        d < 10,
{
    if d == 0 {
        '0'
    } else if d == 1 {
        '1'
    } else if d == 2 {
        '2'
    } else if d == 3 {
        '3'
    } else if d == 4 {
        '4'
    } else if d == 5 {
        '5'
    } else if d == 6 {
        '6'
    } else if d == 7 {
        '7'
    } else if d == 8 {
        '8'
    } else {
        '9'
    }
}

/// A number in decimal, without sign or leading zeros.
pub open spec fn decimal(n: nat) -> Seq<char>
    decreases n,
{
    if n < 10 {
        seq![digit(n)]
    } else {
        decimal(n / 10).push(digit(n % 10))
    }
}

/// The placeholder of the bind parameter with the given number: `$1`, `$2`
/// and so on.
pub open spec fn placeholder(number: nat) -> Seq<char> {
    seq!['$'] + decimal(number)
}

/// An identifier's characters with each double quote written twice.
pub open spec fn doubled_quotes(identifier: Seq<char>) -> Seq<char>
    decreases identifier.len(),
{
    if identifier.len() == 0 {
        Seq::empty()
    } else if identifier[0] == '"' {
        seq!['"', '"'] + doubled_quotes(identifier.skip(1))
    } else {
        seq![identifier[0]] + doubled_quotes(identifier.skip(1))
    }
}

/// An identifier as PostgreSQL reads it whatever its characters: between
/// double quotes, with the double quotes inside it doubled.
pub open spec fn quoted(identifier: Seq<char>) -> Seq<char> {
    seq!['"'] + doubled_quotes(identifier) + seq!['"']
}

/// Calls `PgQueryBuilder::new`. The new builder holds no text and has
/// written no bind parameter.
#[verifier::external_body]
pub(crate) fn new_builder() -> (builder: PgQueryBuilder)
    ensures
        builder_sql(builder) == Seq::<char>::empty(),
        builder_binds(builder) == 0,
{
    PgQueryBuilder::new()
}

/// Calls `QueryBuilder::push_sql` of `PgQueryBuilder`, which appends the
/// given text as it is and leaves the count of bind parameters alone.
#[verifier::external_body]
pub(crate) fn push_sql(builder: &mut PgQueryBuilder, sql: &str)
    ensures
        builder_sql(*final(builder)) == builder_sql(*old(builder)) + sql@,
        builder_binds(*final(builder)) == builder_binds(*old(builder)),
{
    builder.push_sql(sql)
}

/// Calls `QueryBuilder::push_identifier` of `PgQueryBuilder`, which appends
/// the identifier between double quotes, doubling the double quotes inside
/// it, and always returns `Ok`.
#[verifier::external_body]
pub(crate) fn push_identifier(builder: &mut PgQueryBuilder, identifier: &str) -> (pushed: Result<
    (),
    diesel::result::Error,
>)
    ensures
        pushed is Ok,
        builder_sql(*final(builder)) == builder_sql(*old(builder)) + quoted(identifier@),
        builder_binds(*final(builder)) == builder_binds(*old(builder)),
{
    builder.push_identifier(identifier)
}

/// Calls `QueryBuilder::push_bind_param` of `PgQueryBuilder`, which counts
/// one more bind parameter and appends its placeholder: a dollar sign and
/// the new count in decimal. The count is a `u32` and must have room.
#[verifier::external_body]
pub(crate) fn push_bind_param(builder: &mut PgQueryBuilder)
    requires
        builder_binds(*old(builder)) < u32::MAX,
    ensures
        builder_binds(*final(builder)) == builder_binds(*old(builder)) + 1,
        builder_sql(*final(builder)) == builder_sql(*old(builder)) + placeholder(
            builder_binds(*final(builder)) as nat,
        ),
{
    builder.push_bind_param()
}

/// Calls `QueryBuilder::finish` of `PgQueryBuilder`, which gives up the
/// text that the builder holds.
#[verifier::external_body]
pub(crate) fn finish(builder: PgQueryBuilder) -> (sql: String)
    ensures
        sql@ == builder_sql(builder),
{
    builder.finish()
}

} // verus!
