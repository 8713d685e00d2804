//! The comparison and containment operators of `ltree`.
//!
//! [`LtreeExtensions`] gives every expression of the SQL type `ltree` one
//! method for each operator. A method takes the right operand and returns
//! the node of the two operands, a boolean expression that is written as
//! the left operand, the operator and the right operand.

use crate::builder::{builder_binds, builder_sql, push_sql};
use crate::expression::{sum_counts, AsExpression, Expression};
use crate::types::Ltree;
use diesel::pg::PgQueryBuilder;
use diesel::types::Bool;
use vstd::prelude::*;

verus! {

/// An operator that compares two `ltree` values.
#[derive(Clone, Copy, Debug, PartialEq, Eq, Structural)]
pub enum Operator {
    /// `@>`: the left path is an ancestor of the right one, or equal to it.
    Contains,
    /// `<@`: the left path is a descendant of the right one, or equal to it.
    ContainedBy,
    /// `=`
    Eq,
    /// `<>`
    NotEq,
    /// `>`
    Gt,
    /// `>=`
    GtEq,
    /// `<`
    Lt,
    /// `<=`
    LtEq,
}

impl Operator {
    /// The operator as SQL writes it.
    pub open spec fn symbol(self) -> Seq<char> {
        match self {
            Operator::Contains => "@>"@,
            Operator::ContainedBy => "<@"@,
            Operator::Eq => "="@,
            Operator::NotEq => "<>"@,
            Operator::Gt => ">"@,
            Operator::GtEq => ">="@,
            Operator::Lt => "<"@,
            Operator::LtEq => "<="@,
        }
    }

    /// The operator as it stands between its operands: its symbol with a
    /// space on each side.
    pub open spec fn infix(self) -> Seq<char> {
        seq![' '] + self.symbol() + seq![' ']
    }

    /// The operator as SQL writes it.
    pub fn as_str(self) -> (symbol: &'static str)
        ensures
            symbol@ == self.symbol(),
    {
        match self {
            Operator::Contains => "@>",
            Operator::ContainedBy => "<@",
            Operator::Eq => "=",
            Operator::NotEq => "<>",
            Operator::Gt => ">",
            Operator::GtEq => ">=",
            Operator::Lt => "<",
            Operator::LtEq => "<=",
        }
    }

    /// The text to write between the operands.
    pub fn infix_sql(self) -> (text: &'static str)
        ensures
            text@ == self.infix(),
    {
        proof {
            lemma_infix_texts();
        }
        match self {
            Operator::Contains => " @> ",
            Operator::ContainedBy => " <@ ",
            Operator::Eq => " = ",
            Operator::NotEq => " <> ",
            Operator::Gt => " > ",
            Operator::GtEq => " >= ",
            Operator::Lt => " < ",
            Operator::LtEq => " <= ",
        }
    }
}

/// Two operands joined by an operator: a boolean expression.
#[derive(Clone, Copy, Debug)]
pub struct Infix<L, R> {
    /// The operator.
    pub operator: Operator,
    /// The left operand.
    pub left: L,
    /// The right operand.
    pub right: R,
}

impl<L, R> Infix<L, R> {
    /// The node of an operator and its two operands.
    pub fn new(operator: Operator, left: L, right: R) -> (node: Self)
        ensures
            node == (Infix { operator, left, right }),
    {
        Infix { operator, left, right }
    }
}

impl<L, R> Expression for Infix<L, R> where
    L: Expression<SqlType = Ltree>,
    R: Expression<SqlType = Ltree>,
 {
    type SqlType = Bool;

    open spec fn binds(&self) -> nat {
        self.left.binds() + self.right.binds()
    }

    open spec fn sql(&self, preceding: nat) -> Seq<char> {
        self.left.sql(preceding) + self.operator.infix() + self.right.sql(
            preceding + self.left.binds(),
        )
    }

    fn to_sql(&self, out: &mut PgQueryBuilder) {
        self.left.to_sql(out);
        push_sql(out, self.operator.infix_sql());
        self.right.to_sql(out);
    }

    fn bind_count(&self) -> (count: Option<u32>) {
        sum_counts(self.left.bind_count(), self.right.bind_count())
    }
}

/// The operators of `ltree`, as methods of every expression of that type.
///
/// `eq` and `ne` are the type's own `=` and `<>`. They belong to
/// expressions of the SQL type `ltree` alone, so expressions of other
/// types keep whatever equality they have.
pub trait LtreeExtensions: Expression<SqlType = Ltree> + Sized {
    /// `self @> other`: is `self` an ancestor of `other`, or equal to it?
    fn contains<T: AsExpression<Ltree>>(self, other: T) -> (node: Infix<Self, T::Expression>)
        ensures
            node == (Infix {
                operator: Operator::Contains,
                left: self,
                right: other.expression(),
            }),
    {
        Infix::new(Operator::Contains, self, other.as_expression())
    }

    /// `self <@ other`: is `self` a descendant of `other`, or equal to it?
    fn contained_by<T: AsExpression<Ltree>>(self, other: T) -> (node: Infix<Self, T::Expression>)
        ensures
            node == (Infix {
                operator: Operator::ContainedBy,
                left: self,
                right: other.expression(),
            }),
    {
        Infix::new(Operator::ContainedBy, self, other.as_expression())
    }

    /// `self = other`
    fn eq<T: AsExpression<Ltree>>(self, other: T) -> (node: Infix<Self, T::Expression>)
        ensures
            node == (Infix { operator: Operator::Eq, left: self, right: other.expression() }),
    {
        Infix::new(Operator::Eq, self, other.as_expression())
    }

    /// `self <> other`
    fn ne<T: AsExpression<Ltree>>(self, other: T) -> (node: Infix<Self, T::Expression>)
        ensures
            node == (Infix { operator: Operator::NotEq, left: self, right: other.expression() }),
    {
        Infix::new(Operator::NotEq, self, other.as_expression())
    }

    /// `self > other`
    fn gt<T: AsExpression<Ltree>>(self, other: T) -> (node: Infix<Self, T::Expression>)
        ensures
            node == (Infix { operator: Operator::Gt, left: self, right: other.expression() }),
    {
        Infix::new(Operator::Gt, self, other.as_expression())
    }

    /// `self >= other`
    fn ge<T: AsExpression<Ltree>>(self, other: T) -> (node: Infix<Self, T::Expression>)
        ensures
            node == (Infix { operator: Operator::GtEq, left: self, right: other.expression() }),
    {
        Infix::new(Operator::GtEq, self, other.as_expression())
    }

    /// `self < other`
    fn lt<T: AsExpression<Ltree>>(self, other: T) -> (node: Infix<Self, T::Expression>)
        ensures
            node == (Infix { operator: Operator::Lt, left: self, right: other.expression() }),
    {
        Infix::new(Operator::Lt, self, other.as_expression())
    }

    /// `self <= other`
    fn le<T: AsExpression<Ltree>>(self, other: T) -> (node: Infix<Self, T::Expression>)
        ensures
            node == (Infix { operator: Operator::LtEq, left: self, right: other.expression() }),
    {
        Infix::new(Operator::LtEq, self, other.as_expression())
    }
}

impl<T: Expression<SqlType = Ltree>> LtreeExtensions for T {

}

/// The eight symbols, character by character.
pub proof fn lemma_operator_symbols()
    ensures
        Operator::Contains.symbol() == seq!['@', '>'],
        Operator::ContainedBy.symbol() == seq!['<', '@'],
        Operator::Eq.symbol() == seq!['='],
        Operator::NotEq.symbol() == seq!['<', '>'],
        Operator::Gt.symbol() == seq!['>'],
        Operator::GtEq.symbol() == seq!['>', '='],
        Operator::Lt.symbol() == seq!['<'],
        Operator::LtEq.symbol() == seq!['<', '='],
{
    reveal_strlit("@>");
    reveal_strlit("<@");
    reveal_strlit("=");
    reveal_strlit("<>");
    reveal_strlit(">");
    reveal_strlit(">=");
    reveal_strlit("<");
    reveal_strlit("<=");
    assert("@>"@ =~= seq!['@', '>']);
    assert("<@"@ =~= seq!['<', '@']);
    assert("="@ =~= seq!['=']);
    assert("<>"@ =~= seq!['<', '>']);
    assert(">"@ =~= seq!['>']);
    assert(">="@ =~= seq!['>', '=']);
    assert("<"@ =~= seq!['<']);
    assert("<="@ =~= seq!['<', '=']);
}

/// A node is written as its left operand, a space, the operator's symbol,
/// a space and its right operand. It holds the bind parameters of both
/// operands, those of the right one numbered after those of the left.
pub proof fn lemma_infix_sql<L, R>(node: Infix<L, R>, preceding: nat) where
    L: Expression<SqlType = Ltree>,
    R: Expression<SqlType = Ltree>,

    ensures
        node.binds() == node.left.binds() + node.right.binds(),
        node.sql(preceding) == node.left.sql(preceding) + seq![' '] + node.operator.symbol()
            + seq![' '] + node.right.sql(preceding + node.left.binds()),
{
    assert(node.sql(preceding) =~= node.left.sql(preceding) + seq![' ']
        + node.operator.symbol() + seq![' '] + node.right.sql(preceding + node.left.binds()));
}

/// For two expressions `a` and `b` of the SQL type `ltree`, the node that
/// each of the eight methods of [`LtreeExtensions`] returns is written as
/// `a`, the method's operator between two spaces, and `b`. The bind
/// parameters of `b` are numbered after those of `a`.
pub proof fn lemma_operators_sql<L, R>(a: L, b: R, preceding: nat) where
    L: Expression<SqlType = Ltree>,
    R: Expression<SqlType = Ltree>,

    ensures
        (Infix { operator: Operator::Contains, left: a, right: b }).sql(preceding) == a.sql(
            preceding,
        ) + " @> "@ + b.sql(preceding + a.binds()),
        (Infix { operator: Operator::ContainedBy, left: a, right: b }).sql(preceding) == a.sql(
            preceding,
        ) + " <@ "@ + b.sql(preceding + a.binds()),
        (Infix { operator: Operator::Eq, left: a, right: b }).sql(preceding) == a.sql(preceding)
            + " = "@ + b.sql(preceding + a.binds()),
        (Infix { operator: Operator::NotEq, left: a, right: b }).sql(preceding) == a.sql(
            preceding,
        ) + " <> "@ + b.sql(preceding + a.binds()),
        (Infix { operator: Operator::Gt, left: a, right: b }).sql(preceding) == a.sql(preceding)
            + " > "@ + b.sql(preceding + a.binds()),
        (Infix { operator: Operator::GtEq, left: a, right: b }).sql(preceding) == a.sql(
            preceding,
        ) + " >= "@ + b.sql(preceding + a.binds()),
        (Infix { operator: Operator::Lt, left: a, right: b }).sql(preceding) == a.sql(preceding)
            + " < "@ + b.sql(preceding + a.binds()),
        (Infix { operator: Operator::LtEq, left: a, right: b }).sql(preceding) == a.sql(
            preceding,
        ) + " <= "@ + b.sql(preceding + a.binds()),
{
    lemma_infix_texts();
}

/// The text between the operands of each operator.
proof fn lemma_infix_texts()
    ensures
        Operator::Contains.infix() == " @> "@,
        Operator::ContainedBy.infix() == " <@ "@,
        Operator::Eq.infix() == " = "@,
        Operator::NotEq.infix() == " <> "@,
        Operator::Gt.infix() == " > "@,
        Operator::GtEq.infix() == " >= "@,
        Operator::Lt.infix() == " < "@,
        Operator::LtEq.infix() == " <= "@,
{
    lemma_operator_symbols();
    reveal_strlit(" @> ");
    reveal_strlit(" <@ ");
    reveal_strlit(" = ");
    reveal_strlit(" <> ");
    reveal_strlit(" > ");
    reveal_strlit(" >= ");
    reveal_strlit(" < ");
    reveal_strlit(" <= ");
    assert(Operator::Contains.infix() =~= " @> "@);
    assert(Operator::ContainedBy.infix() =~= " <@ "@);
    assert(Operator::Eq.infix() =~= " = "@);
    assert(Operator::NotEq.infix() =~= " <> "@);
    assert(Operator::Gt.infix() =~= " > "@);
    assert(Operator::GtEq.infix() =~= " >= "@);
    assert(Operator::Lt.infix() =~= " < "@);
    assert(Operator::LtEq.infix() =~= " <= "@);
}

} // verus!
