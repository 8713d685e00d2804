use diesel::expression::bound::Bound as DieselBound;
use diesel::pg::{Pg, PgQueryBuilder};
use diesel::query_builder::nodes::{Identifier, InfixNode};
use diesel::query_builder::{QueryBuilder, QueryFragment};
use diesel::types::{Int4, Text};
use diesel_ltree::expression::sum_counts;
use diesel_ltree::{
    nlevel, render, text2ltree, AsExpression, Bound, Column, Expression, Ltree, LtreeExtensions,
};

fn written_by_diesel<T: QueryFragment<Pg>>(fragment: &T) -> String {
    let mut builder = PgQueryBuilder::new();
    QueryFragment::<Pg>::to_sql(fragment, &mut builder).expect("diesel writes the fragment");
    builder.finish()
}

fn diesel_column<'a>(
    table: &'a str,
    name: &'a str,
) -> InfixNode<'a, Identifier<'a>, Identifier<'a>> {
    InfixNode::new(Identifier(table), Identifier(name), ".")
}

#[test]
fn a_column_is_written_as_quoted_table_and_name() {
    let column = Column::<Ltree>::new("nodes", "path");
    assert_eq!(render(&column), Some(String::from("\"nodes\".\"path\"")));
    assert_eq!(column.bind_count(), Some(0));
}

#[test]
fn a_column_is_written_as_diesel_writes_one() {
    let column = Column::<Ltree>::new("nodes", "path");
    assert_eq!(render(&column).unwrap(), written_by_diesel(&diesel_column("nodes", "path")));
}

#[test]
fn double_quotes_in_identifiers_are_doubled() {
    let column = Column::<Ltree>::new("no\"des", "\"path\"");
    assert_eq!(render(&column).unwrap(), "\"no\"\"des\".\"\"\"path\"\"\"");
    assert_eq!(render(&column).unwrap(), written_by_diesel(&diesel_column("no\"des", "\"path\"")));
}

#[test]
fn an_empty_identifier_is_two_quotes() {
    let column = Column::<Text>::new("", "");
    assert_eq!(render(&column).unwrap(), "\"\".\"\"");
}

#[test]
fn a_bound_value_is_written_as_its_placeholder() {
    let bound = Bound::<Text, &str>::new("a.b");
    assert_eq!(render(&bound).unwrap(), "$1");
    assert_eq!(bound.bind_count(), Some(1));
    assert_eq!(bound.item, "a.b");
}

#[test]
fn a_bound_value_is_written_as_diesel_writes_one() {
    let ours = Bound::<Text, &str>::new("a.b");
    let theirs = DieselBound::<Text, &str>::new("a.b");
    assert_eq!(render(&ours).unwrap(), written_by_diesel(&theirs));
}

#[test]
fn an_operator_is_written_as_diesel_writes_an_infix_node() {
    let ours = Column::<Ltree>::new("t", "a").contains(Column::<Ltree>::new("t", "b"));
    let theirs = InfixNode::new(diesel_column("t", "a"), diesel_column("t", "b"), " @> ");
    assert_eq!(render(&ours).unwrap(), written_by_diesel(&theirs));
}

#[test]
fn values_become_bound_expressions() {
    let text = "a.b".as_expression();
    assert_eq!(text.item, "a.b");
    let owned = AsExpression::<Text>::as_expression(String::from("c.d"));
    assert_eq!(owned.item, "c.d");
    let number = AsExpression::<Int4>::as_expression(7);
    assert_eq!(number.item, 7);
}

#[test]
fn an_expression_stays_itself() {
    let column = Column::<Ltree>::new("nodes", "path");
    let same = AsExpression::<Ltree>::as_expression(column);
    assert_eq!(same.table, "nodes");
    assert_eq!(same.name, "path");
}

#[test]
fn to_sql_appends_to_what_the_builder_holds() {
    let mut builder = PgQueryBuilder::new();
    builder.push_sql("SELECT ");
    nlevel(Column::<Ltree>::new("nodes", "path")).to_sql(&mut builder);
    builder.push_sql(" FROM ");
    assert_eq!(builder.finish(), "SELECT nlevel(\"nodes\".\"path\") FROM ");
}

#[test]
fn to_sql_numbers_after_the_binds_already_written() {
    let mut builder = PgQueryBuilder::new();
    builder.push_bind_param();
    builder.push_sql(" ");
    text2ltree("a").contains(text2ltree("a.b")).to_sql(&mut builder);
    assert_eq!(builder.finish(), "$1 text2ltree($2) @> text2ltree($3)");
}

#[test]
fn render_starts_from_an_empty_query() {
    let node = text2ltree("a");
    assert_eq!(render(&node).unwrap(), "text2ltree($1)");
    assert_eq!(render(&node).unwrap(), "text2ltree($1)");
}

#[test]
fn copies_of_a_column_are_equal_columns() {
    let column = Column::<Ltree>::new("nodes", "path");
    let copy = column;
    let clone = column.clone();
    assert_eq!(copy.table, column.table);
    assert_eq!(clone.name, column.name);
}

#[test]
fn a_clone_of_a_bound_value_keeps_the_value() {
    let bound = Bound::<Text, String>::new(String::from("a.b"));
    assert_eq!(bound.clone().item, "a.b");
}

#[test]
fn counts_add_up() {
    assert_eq!(sum_counts(Some(2), Some(3)), Some(5));
    assert_eq!(sum_counts(Some(0), Some(0)), Some(0));
    assert_eq!(sum_counts(Some(u32::MAX - 1), Some(1)), Some(u32::MAX));
}

#[test]
fn counts_beyond_the_limit_are_none() {
    assert_eq!(sum_counts(Some(u32::MAX), Some(1)), None);
    assert_eq!(sum_counts(None, Some(1)), None);
    assert_eq!(sum_counts(Some(1), None), None);
    assert_eq!(sum_counts(None, None), None);
}
