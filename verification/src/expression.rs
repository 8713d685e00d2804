//! Typed SQL expressions and how they are written into a query.
//!
//! An expression is a tree. Its leaves are columns and bound values; its
//! inner nodes are the function calls and operators of the other modules.
//! What matters of an expression is its SQL type, which the compiler
//! checks, and what it writes into a query: its text and the bind
//! parameters it claims. The values of the bind parameters travel apart
//! from the text, which holds a numbered placeholder for each.

use crate::builder::{
    builder_binds, builder_sql, finish, new_builder, placeholder, push_bind_param,
    push_identifier, push_sql, quoted,
};
use diesel::pg::PgQueryBuilder;
use diesel::types::{Int4, Text};
use std::marker::PhantomData;
use vstd::pervasive::cloned;
use vstd::prelude::*;

verus! {

/// An expression of a SQL type that can be written into a PostgreSQL query.
pub trait Expression: Sized {
    /// The SQL type of the expression's value.
    type SqlType;

    /// The number of bind parameters in the expression.
    spec fn binds(&self) -> nat;

    /// The text of the expression where `preceding` bind parameters stand
    /// before it in the query: its own are numbered from `preceding + 1`.
    spec fn sql(&self, preceding: nat) -> Seq<char>;

    /// Appends the expression to a query under construction. The builder
    /// must have room for the numbers of the expression's bind parameters;
    /// [`render`] sees to that itself.
    fn to_sql(&self, out: &mut PgQueryBuilder)
        requires
            builder_binds(*old(out)) + self.binds() <= u32::MAX,
        ensures
            builder_sql(*final(out)) == builder_sql(*old(out)) + self.sql(
                builder_binds(*old(out)) as nat,
            ),
            builder_binds(*final(out)) == builder_binds(*old(out)) + self.binds(),
    ;

    /// The number of bind parameters in the expression, or `None` where it
    /// is more than a query can number.
    fn bind_count(&self) -> (count: Option<u32>)
        ensures
            self.binds() <= u32::MAX ==> count == Some(self.binds() as u32),
            self.binds() > u32::MAX ==> count is None,
    ;
}

/// What can stand where an expression of the SQL type `ST` is wanted: such
/// an expression itself, or a Rust value that is sent as a bind parameter
/// of that type.
pub trait AsExpression<ST>: Sized {
    /// The expression that the value becomes.
    type Expression: Expression<SqlType = ST>;

    /// The expression that the value becomes.
    spec fn expression(self) -> Self::Expression;

    /// Turns the value into an expression.
    fn as_expression(self) -> (expression: Self::Expression)
        ensures
            expression == self.expression(),
    ;
}

impl<T: Expression> AsExpression<T::SqlType> for T {
    type Expression = T;

    open spec fn expression(self) -> T {
        self
    }

    fn as_expression(self) -> T {
        self
    }
}

/// A column of a table, written as `"table"."column"`.
#[derive(Debug)]
pub struct Column<'a, ST> {
    /// The table's name.
    pub table: &'a str,
    /// The column's name.
    pub name: &'a str,
    /// The column's SQL type.
    pub marker: PhantomData<ST>,
}

impl<'a, ST> Column<'a, ST> {
    /// The column `name` of `table`, of the SQL type `ST`.
    pub fn new(table: &'a str, name: &'a str) -> (column: Self)
        ensures
            column == (Column::<ST> { table, name, marker: PhantomData }),
    {
        Column { table, name, marker: PhantomData }
    }
}

impl<'a, ST> Clone for Column<'a, ST> {
    fn clone(&self) -> (column: Self)
        ensures
            column == *self,
    {
        Column { table: self.table, name: self.name, marker: PhantomData }
    }
}

impl<'a, ST> Copy for Column<'a, ST> {

}

impl<'a, ST> Expression for Column<'a, ST> {
    type SqlType = ST;

    open spec fn binds(&self) -> nat {
        0
    }

    open spec fn sql(&self, preceding: nat) -> Seq<char> {
        quoted(self.table@) + seq!['.'] + quoted(self.name@)
    }

    fn to_sql(&self, out: &mut PgQueryBuilder) {
        // The PostgreSQL builder quotes whatever it is given: the results are `Ok`.
        let _ = push_identifier(out, self.table);
        push_sql(out, ".");
        let _ = push_identifier(out, self.name);
        proof {
            reveal_strlit(".");
            assert("."@ =~= seq!['.']);
        }
    }

    fn bind_count(&self) -> (count: Option<u32>) {
        Some(0)
    }
}

/// A Rust value sent as a bind parameter of the SQL type `ST`, written as
/// its placeholder.
#[derive(Debug)]
pub struct Bound<ST, T> {
    /// The value.
    pub item: T,
    /// The SQL type that the value is sent as.
    pub marker: PhantomData<ST>,
}

impl<ST, T> Bound<ST, T> {
    /// The bind parameter with the value `item`.
    pub fn new(item: T) -> (bound: Self)
        ensures
            bound == (Bound::<ST, T> { item, marker: PhantomData }),
    {
        Bound { item, marker: PhantomData }
    }
}

impl<ST, T: Clone> Clone for Bound<ST, T> {
    fn clone(&self) -> (bound: Self)
        ensures
            cloned(self.item, bound.item),
    {
        Bound { item: self.item.clone(), marker: PhantomData }
    }
}

impl<ST, T: Copy> Copy for Bound<ST, T> {

}

impl<ST, T> Expression for Bound<ST, T> {
    type SqlType = ST;

    open spec fn binds(&self) -> nat {
        1
    }

    open spec fn sql(&self, preceding: nat) -> Seq<char> {
        placeholder(preceding + 1)
    }

    fn to_sql(&self, out: &mut PgQueryBuilder) {
        push_bind_param(out);
    }

    fn bind_count(&self) -> (count: Option<u32>) {
        Some(1)
    }
}

impl<'a> AsExpression<Text> for &'a str {
    type Expression = Bound<Text, &'a str>;

    open spec fn expression(self) -> Bound<Text, &'a str> {
        Bound { item: self, marker: PhantomData }
    }

    fn as_expression(self) -> Bound<Text, &'a str> {
        Bound::new(self)
    }
}

impl AsExpression<Text> for String {
    type Expression = Bound<Text, String>;

    open spec fn expression(self) -> Bound<Text, String> {
        Bound { item: self, marker: PhantomData }
    }

    fn as_expression(self) -> Bound<Text, String> {
        Bound::new(self)
    }
}

impl AsExpression<Int4> for i32 {
    type Expression = Bound<Int4, i32>;

    open spec fn expression(self) -> Bound<Int4, i32> {
        Bound { item: self, marker: PhantomData }
    }

    fn as_expression(self) -> Bound<Int4, i32> {
        Bound::new(self)
    }
}

/// The sum of two counts of bind parameters, or `None` where either is
/// missing or the sum is more than a query can number.
pub fn sum_counts(a: Option<u32>, b: Option<u32>) -> (sum: Option<u32>)
    ensures
        sum == match (a, b) {
            (Some(x), Some(y)) => if x + y <= u32::MAX {
                Some((x + y) as u32)
            } else {
                None
            },
            _ => None,
        },
{
    match (a, b) {
        (Some(x), Some(y)) => x.checked_add(y),
        _ => None,
    }
}

/// The text of an expression that stands at the start of a query, its bind
/// parameters numbered from one; `None` where it holds more bind
/// parameters than a query can number.
pub fn render<E: Expression>(expression: &E) -> (sql: Option<String>)
    ensures
        sql is Some <==> expression.binds() <= u32::MAX,
        sql matches Some(text) ==> text@ == expression.sql(0),
{
    match expression.bind_count() {
        Some(_) => {
            let mut out = new_builder();
            expression.to_sql(&mut out);
            Some(finish(out))
        },
        None => None,
    }
}

} // verus!
