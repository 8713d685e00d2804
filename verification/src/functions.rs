//! The SQL functions of `ltree`.
//!
//! A function is declared by a type that implements [`SqlFunction`]: the
//! declaration holds the function's name, the SQL types of its arguments
//! and the SQL type of its result. Each declared function has a
//! constructor, which takes the arguments as expressions of the declared
//! SQL types, or as Rust values that become bind parameters, and returns
//! the call as an expression of the function's result type. An argument of
//! another SQL type, or another number of arguments, does not compile.
//!
//! A call is written as the function's name and, between parentheses, its
//! arguments in the declared order, separated by a comma and a space.
//!
//! SQL has two functions named `subpath` and two named `index`, told apart
//! by the number of their arguments. Rust has one function to a name, so
//! the shorter `subpath` is [`subpath_from`] here and the longer `index` is
//! [`index_from`].

use crate::builder::{builder_binds, builder_sql, decimal, placeholder, push_sql};
use crate::expression::{sum_counts, AsExpression, Expression};
use crate::types::Ltree;
use diesel::pg::PgQueryBuilder;
use diesel::types::{Int4, Text};
use vstd::prelude::*;

verus! {

/// The declaration of a SQL function.
pub trait SqlFunction: Sized {
    /// The SQL types of the arguments, in their order, as a tuple.
    type ArgumentTypes;

    /// The SQL type of the result.
    type ReturnType;

    /// The function's name in SQL.
    spec fn name() -> Seq<char>;

    /// The function's name in SQL.
    fn sql_name() -> (name: &'static str)
        ensures
            name@ == Self::name(),
    ;
}

/// The texts of a call's arguments, one after the other, with a comma and
/// a space between each two.
pub open spec fn comma_separated(arguments: Seq<Seq<char>>) -> Seq<char>
    decreases arguments.len(),
{
    if arguments.len() == 0 {
        Seq::empty()
    } else if arguments.len() == 1 {
        arguments[0]
    } else {
        comma_separated(arguments.drop_last()) + ", "@ + arguments.last()
    }
}

/// The arguments of a call: a tuple of expressions whose SQL types, in
/// their order, are `Types`.
pub trait Arguments<Types>: Sized {
    /// The number of bind parameters in the arguments.
    spec fn binds(&self) -> nat;

    /// The text of each argument, in order, where `preceding` bind
    /// parameters stand before the first: each argument's own are numbered
    /// after those of the arguments before it.
    spec fn texts(&self, preceding: nat) -> Seq<Seq<char>>;

    /// Appends the arguments to a query under construction, separated by a
    /// comma and a space.
    fn to_sql(&self, out: &mut PgQueryBuilder)
        requires
            builder_binds(*old(out)) + self.binds() <= u32::MAX,
        ensures
            builder_sql(*final(out)) == builder_sql(*old(out)) + comma_separated(
                self.texts(builder_binds(*old(out)) as nat),
            ),
            builder_binds(*final(out)) == builder_binds(*old(out)) + self.binds(),
    ;

    /// The number of bind parameters in the arguments, or `None` where it
    /// is more than a query can number.
    fn bind_count(&self) -> (count: Option<u32>)
        ensures
            self.binds() <= u32::MAX ==> count == Some(self.binds() as u32),
            self.binds() > u32::MAX ==> count is None,
    ;
}

impl<A: Expression> Arguments<(A::SqlType,)> for (A,) {
    open spec fn binds(&self) -> nat {
        self.0.binds()
    }

    open spec fn texts(&self, preceding: nat) -> Seq<Seq<char>> {
        seq![self.0.sql(preceding)]
    }

    fn to_sql(&self, out: &mut PgQueryBuilder) {
        self.0.to_sql(out);
    }

    fn bind_count(&self) -> (count: Option<u32>) {
        self.0.bind_count()
    }
}

impl<A: Expression, B: Expression> Arguments<(A::SqlType, B::SqlType)> for (A, B) {
    open spec fn binds(&self) -> nat {
        self.0.binds() + self.1.binds()
    }

    open spec fn texts(&self, preceding: nat) -> Seq<Seq<char>> {
        seq![self.0.sql(preceding), self.1.sql(preceding + self.0.binds())]
    }

    fn to_sql(&self, out: &mut PgQueryBuilder) {
        let ghost preceding = builder_binds(*out) as nat;
        let ghost before = builder_sql(*out);
        self.0.to_sql(out);
        push_sql(out, ", ");
        self.1.to_sql(out);
        proof {
            lemma_two_comma_separated(
                self.0.sql(preceding),
                self.1.sql(preceding + self.0.binds()),
            );
            assert(builder_sql(*out) =~= before + comma_separated(self.texts(preceding)));
        }
    }

    fn bind_count(&self) -> (count: Option<u32>) {
        sum_counts(self.0.bind_count(), self.1.bind_count())
    }
}

impl<A: Expression, B: Expression, C: Expression> Arguments<
    (A::SqlType, B::SqlType, C::SqlType),
> for (A, B, C) {
    open spec fn binds(&self) -> nat {
        self.0.binds() + self.1.binds() + self.2.binds()
    }

    open spec fn texts(&self, preceding: nat) -> Seq<Seq<char>> {
        seq![
            self.0.sql(preceding),
            self.1.sql(preceding + self.0.binds()),
            self.2.sql(preceding + self.0.binds() + self.1.binds()),
        ]
    }

    fn to_sql(&self, out: &mut PgQueryBuilder) {
        let ghost preceding = builder_binds(*out) as nat;
        let ghost before = builder_sql(*out);
        self.0.to_sql(out);
        push_sql(out, ", ");
        self.1.to_sql(out);
        push_sql(out, ", ");
        self.2.to_sql(out);
        proof {
            lemma_three_comma_separated(
                self.0.sql(preceding),
                self.1.sql(preceding + self.0.binds()),
                self.2.sql(preceding + self.0.binds() + self.1.binds()),
            );
            assert(builder_sql(*out) =~= before + comma_separated(self.texts(preceding)));
        }
    }

    fn bind_count(&self) -> (count: Option<u32>) {
        sum_counts(sum_counts(self.0.bind_count(), self.1.bind_count()), self.2.bind_count())
    }
}

/// Two texts separated are the first, a comma, a space and the second.
proof fn lemma_two_comma_separated(a: Seq<char>, b: Seq<char>)
    ensures
        comma_separated(seq![a, b]) == a + ", "@ + b,
{
    assert(seq![a, b].drop_last() =~= seq![a]);
    assert(comma_separated(seq![a]) == a);
}

/// Three texts separated are the first two separated, a comma, a space and
/// the third.
proof fn lemma_three_comma_separated(a: Seq<char>, b: Seq<char>, c: Seq<char>)
    ensures
        comma_separated(seq![a, b, c]) == a + ", "@ + b + ", "@ + c,
{
    lemma_two_comma_separated(a, b);
    assert(seq![a, b, c].drop_last() =~= seq![a, b]);
}

/// The call of a function with its arguments: an expression of the
/// function's result type.
#[derive(Clone, Copy, Debug)]
pub struct Call<F, Args> {
    /// The function that is called.
    pub function: F,
    /// The arguments, in the declared order.
    pub arguments: Args,
}

impl<F, Args> Expression for Call<F, Args> where
    F: SqlFunction,
    Args: Arguments<F::ArgumentTypes>,
 {
    type SqlType = F::ReturnType;

    open spec fn binds(&self) -> nat {
        self.arguments.binds()
    }

    open spec fn sql(&self, preceding: nat) -> Seq<char> {
        F::name() + "("@ + comma_separated(self.arguments.texts(preceding)) + ")"@
    }

    fn to_sql(&self, out: &mut PgQueryBuilder) {
        let ghost preceding = builder_binds(*out) as nat;
        let ghost before = builder_sql(*out);
        push_sql(out, F::sql_name());
        push_sql(out, "(");
        self.arguments.to_sql(out);
        push_sql(out, ")");
        assert(builder_sql(*out) =~= before + self.sql(preceding));
    }

    fn bind_count(&self) -> (count: Option<u32>) {
        self.arguments.bind_count()
    }
}

/// `subltree(ltree, start, end)`: the part of a path from position `start`
/// up to, not including, position `end`. Positions count from zero.
#[derive(Clone, Copy, Debug, PartialEq, Eq, Structural)]
pub struct Subltree;

impl SqlFunction for Subltree {
    type ArgumentTypes = (Ltree, Int4, Int4);

    type ReturnType = Ltree;

    open spec fn name() -> Seq<char> {
        "subltree"@
    }

    fn sql_name() -> (name: &'static str) {
        "subltree"
    }
}

/// `subpath(ltree, offset, len)`: the part of a path that starts at
/// position `offset` and has `len` labels. A negative `offset` counts from
/// the end of the path; a negative `len` leaves that many labels off the
/// end.
#[derive(Clone, Copy, Debug, PartialEq, Eq, Structural)]
pub struct Subpath;

impl SqlFunction for Subpath {
    type ArgumentTypes = (Ltree, Int4, Int4);

    type ReturnType = Ltree;

    open spec fn name() -> Seq<char> {
        "subpath"@
    }

    fn sql_name() -> (name: &'static str) {
        "subpath"
    }
}

/// `subpath(ltree, offset)`: the part of a path from position `offset` to
/// its end. A negative `offset` counts from the end of the path.
#[derive(Clone, Copy, Debug, PartialEq, Eq, Structural)]
pub struct SubpathFrom;

impl SqlFunction for SubpathFrom {
    type ArgumentTypes = (Ltree, Int4);

    type ReturnType = Ltree;

    open spec fn name() -> Seq<char> {
        "subpath"@
    }

    fn sql_name() -> (name: &'static str) {
        "subpath"
    }
}

/// `nlevel(ltree)`: the number of labels in a path.
#[derive(Clone, Copy, Debug, PartialEq, Eq, Structural)]
pub struct Nlevel;

impl SqlFunction for Nlevel {
    type ArgumentTypes = (Ltree,);

    type ReturnType = Int4;

    open spec fn name() -> Seq<char> {
        "nlevel"@
    }

    fn sql_name() -> (name: &'static str) {
        "nlevel"
    }
}

/// `index(a, b)`: the position in `a` at which `b` first occurs, or -1.
#[derive(Clone, Copy, Debug, PartialEq, Eq, Structural)]
pub struct Index;

impl SqlFunction for Index {
    type ArgumentTypes = (Ltree, Ltree);

    type ReturnType = Int4;

    open spec fn name() -> Seq<char> {
        "index"@
    }

    fn sql_name() -> (name: &'static str) {
        "index"
    }
}

/// `index(a, b, offset)`: the position in `a` at which `b` first occurs at
/// or after position `offset`, or -1. A negative `offset` counts from the
/// end of the path.
#[derive(Clone, Copy, Debug, PartialEq, Eq, Structural)]
pub struct IndexFrom;

impl SqlFunction for IndexFrom {
    type ArgumentTypes = (Ltree, Ltree, Int4);

    type ReturnType = Int4;

    open spec fn name() -> Seq<char> {
        "index"@
    }

    fn sql_name() -> (name: &'static str) {
        "index"
    }
}

/// `text2ltree(text)`: the text as a path.
#[derive(Clone, Copy, Debug, PartialEq, Eq, Structural)]
pub struct Text2ltree;

impl SqlFunction for Text2ltree {
    type ArgumentTypes = (Text,);

    type ReturnType = Ltree;

    open spec fn name() -> Seq<char> {
        "text2ltree"@
    }

    fn sql_name() -> (name: &'static str) {
        "text2ltree"
    }
}

/// `ltree2text(ltree)`: the path as text.
#[derive(Clone, Copy, Debug, PartialEq, Eq, Structural)]
pub struct Ltree2text;

impl SqlFunction for Ltree2text {
    type ArgumentTypes = (Ltree,);

    type ReturnType = Text;

    open spec fn name() -> Seq<char> {
        "ltree2text"@
    }

    fn sql_name() -> (name: &'static str) {
        "ltree2text"
    }
}

/// The call `subltree(ltree, start, end)`.
pub fn subltree<A, B, C>(ltree: A, start: B, end: C) -> (node: Call<
    Subltree,
    (A::Expression, B::Expression, C::Expression),
>) where
    A: AsExpression<Ltree>,
    B: AsExpression<Int4>,
    C: AsExpression<Int4>,

    ensures
        node == (Call {
            function: Subltree,
            arguments: (ltree.expression(), start.expression(), end.expression()),
        }),
{
    Call {
        function: Subltree,
        arguments: (ltree.as_expression(), start.as_expression(), end.as_expression()),
    }
}

/// The call `subpath(ltree, offset, len)`.
pub fn subpath<A, B, C>(ltree: A, offset: B, len: C) -> (node: Call<
    Subpath,
    (A::Expression, B::Expression, C::Expression),
>) where
    A: AsExpression<Ltree>,
    B: AsExpression<Int4>,
    C: AsExpression<Int4>,

    ensures
        node == (Call {
            function: Subpath,
            arguments: (ltree.expression(), offset.expression(), len.expression()),
        }),
{
    Call {
        function: Subpath,
        arguments: (ltree.as_expression(), offset.as_expression(), len.as_expression()),
    }
}

/// The call `subpath(ltree, offset)`.
pub fn subpath_from<A, B>(ltree: A, offset: B) -> (node: Call<
    SubpathFrom,
    (A::Expression, B::Expression),
>) where
    A: AsExpression<Ltree>,
    B: AsExpression<Int4>,

    ensures
        node == (Call {
            function: SubpathFrom,
            arguments: (ltree.expression(), offset.expression()),
        }),
{
    Call { function: SubpathFrom, arguments: (ltree.as_expression(), offset.as_expression()) }
}

/// The call `nlevel(ltree)`.
pub fn nlevel<A>(ltree: A) -> (node: Call<Nlevel, (A::Expression,)>) where
    A: AsExpression<Ltree>,

    ensures
        node == (Call { function: Nlevel, arguments: (ltree.expression(),) }),
{
    Call { function: Nlevel, arguments: (ltree.as_expression(),) }
}

/// The call `index(a, b)`.
pub fn index<A, B>(a: A, b: B) -> (node: Call<Index, (A::Expression, B::Expression)>) where
    A: AsExpression<Ltree>,
    B: AsExpression<Ltree>,

    ensures
        node == (Call { function: Index, arguments: (a.expression(), b.expression()) }),
{
    Call { function: Index, arguments: (a.as_expression(), b.as_expression()) }
}

/// The call `index(a, b, offset)`.
pub fn index_from<A, B, C>(a: A, b: B, offset: C) -> (node: Call<
    IndexFrom,
    (A::Expression, B::Expression, C::Expression),
>) where
    A: AsExpression<Ltree>,
    B: AsExpression<Ltree>,
    C: AsExpression<Int4>,

    ensures
        node == (Call {
            function: IndexFrom,
            arguments: (a.expression(), b.expression(), offset.expression()),
        }),
{
    Call {
        function: IndexFrom,
        arguments: (a.as_expression(), b.as_expression(), offset.as_expression()),
    }
}

/// The call `text2ltree(text)`.
pub fn text2ltree<A>(text: A) -> (node: Call<Text2ltree, (A::Expression,)>) where
    A: AsExpression<Text>,

    ensures
        node == (Call { function: Text2ltree, arguments: (text.expression(),) }),
{
    Call { function: Text2ltree, arguments: (text.as_expression(),) }
}

/// The call `ltree2text(ltree)`.
pub fn ltree2text<A>(ltree: A) -> (node: Call<Ltree2text, (A::Expression,)>) where
    A: AsExpression<Ltree>,

    ensures
        node == (Call { function: Ltree2text, arguments: (ltree.expression(),) }),
{
    Call { function: Ltree2text, arguments: (ltree.as_expression(),) }
}

/// A call with one argument is written `name(a)`. It holds the bind
/// parameters of its argument.
pub proof fn lemma_call_of_one<F, A>(node: Call<F, (A,)>, preceding: nat) where
    F: SqlFunction<ArgumentTypes = (A::SqlType,)>,
    A: Expression,

    ensures
        node.binds() == node.arguments.0.binds(),
        node.sql(preceding) == F::name() + "("@ + node.arguments.0.sql(preceding) + ")"@,
{
}

/// A call with two arguments is written `name(a, b)`. It holds the bind
/// parameters of its arguments, those of `b` numbered after those of `a`.
pub proof fn lemma_call_of_two<F, A, B>(node: Call<F, (A, B)>, preceding: nat) where
    F: SqlFunction<ArgumentTypes = (A::SqlType, B::SqlType)>,
    A: Expression,
    B: Expression,

    ensures
        node.binds() == node.arguments.0.binds() + node.arguments.1.binds(),
        node.sql(preceding) == F::name() + "("@ + node.arguments.0.sql(preceding) + ", "@
            + node.arguments.1.sql(preceding + node.arguments.0.binds()) + ")"@,
{
    let a = node.arguments.0.sql(preceding);
    let b = node.arguments.1.sql(preceding + node.arguments.0.binds());
    lemma_two_comma_separated(a, b);
    assert(node.sql(preceding) =~= F::name() + "("@ + a + ", "@ + b + ")"@);
}

/// A call with three arguments is written `name(a, b, c)`. It holds the
/// bind parameters of its arguments, numbered in the order of the
/// arguments.
pub proof fn lemma_call_of_three<F, A, B, C>(node: Call<F, (A, B, C)>, preceding: nat) where
    F: SqlFunction<ArgumentTypes = (A::SqlType, B::SqlType, C::SqlType)>,
    A: Expression,
    B: Expression,
    C: Expression,

    ensures
        node.binds() == node.arguments.0.binds() + node.arguments.1.binds()
            + node.arguments.2.binds(),
        node.sql(preceding) == F::name() + "("@ + node.arguments.0.sql(preceding) + ", "@
            + node.arguments.1.sql(preceding + node.arguments.0.binds()) + ", "@
            + node.arguments.2.sql(
            preceding + node.arguments.0.binds() + node.arguments.1.binds(),
        ) + ")"@,
{
    let a = node.arguments.0.sql(preceding);
    let b = node.arguments.1.sql(preceding + node.arguments.0.binds());
    let c = node.arguments.2.sql(preceding + node.arguments.0.binds() + node.arguments.1.binds());
    lemma_three_comma_separated(a, b, c);
    assert(node.sql(preceding) =~= F::name() + "("@ + a + ", "@ + b + ", "@ + c + ")"@);
}

/// The names of the declared functions, as SQL knows them. The two forms
/// of `subpath` share their name, and so do the two forms of `index`.
pub proof fn lemma_function_names()
    ensures
        Subltree::name() == "subltree"@,
        Subpath::name() == "subpath"@,
        SubpathFrom::name() == "subpath"@,
        Nlevel::name() == "nlevel"@,
        Index::name() == "index"@,
        IndexFrom::name() == "index"@,
        Text2ltree::name() == "text2ltree"@,
        Ltree2text::name() == "ltree2text"@,
{
}

/// A text that is turned into a path and the path back into text is handed
/// to the database as it is: the query is `ltree2text(text2ltree($1))`,
/// and the text is the value of its one bind parameter. What the database
/// answers is not stated here.
pub proof fn lemma_text_to_path_and_back_query(text: &str)
    ensures
        ({
            let path = Call { function: Text2ltree, arguments: (text.expression(),) };
            let node = Call { function: Ltree2text, arguments: (path,) };
            &&& node.binds() == 1
            &&& node.sql(0) == "ltree2text(text2ltree($1))"@
            &&& node.arguments.0.arguments.0.item == text
        }),
{
    let path = Call { function: Text2ltree, arguments: (text.expression(),) };
    let node = Call { function: Ltree2text, arguments: (path,) };
    reveal_strlit("ltree2text(text2ltree($1))");
    reveal_strlit("ltree2text");
    reveal_strlit("text2ltree");
    reveal_strlit("(");
    reveal_strlit(")");
    assert(decimal(1) =~= seq!['1']);
    assert(path.sql(0) =~= "text2ltree"@ + "("@ + placeholder(1) + ")"@);
    assert(node.sql(0) =~= "ltree2text(text2ltree($1))"@);
}

} // verus!
