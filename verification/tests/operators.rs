use diesel_ltree::{
    render, text2ltree, Column, Expression, Infix, Ltree, LtreeExtensions, Operator,
};

fn a() -> Column<'static, Ltree> {
    Column::new("t", "a")
}

fn b() -> Column<'static, Ltree> {
    Column::new("t", "b")
}

fn text<E: Expression>(expression: &E) -> String {
    render(expression).expect("few bind parameters")
}

#[test]
fn contains_is_written_with_its_symbol() {
    assert_eq!(text(&a().contains(b())), "\"t\".\"a\" @> \"t\".\"b\"");
}

#[test]
fn contained_by_is_written_with_its_symbol() {
    assert_eq!(text(&a().contained_by(b())), "\"t\".\"a\" <@ \"t\".\"b\"");
}

#[test]
fn eq_is_written_with_its_symbol() {
    assert_eq!(text(&LtreeExtensions::eq(a(), b())), "\"t\".\"a\" = \"t\".\"b\"");
}

#[test]
fn ne_is_written_with_its_symbol() {
    assert_eq!(text(&LtreeExtensions::ne(a(), b())), "\"t\".\"a\" <> \"t\".\"b\"");
}

#[test]
fn eq_and_ne_are_the_methods_of_ltree_expressions() {
    assert_eq!(text(&a().eq(b())), "\"t\".\"a\" = \"t\".\"b\"");
    assert_eq!(text(&a().ne(b())), "\"t\".\"a\" <> \"t\".\"b\"");
    assert_eq!(text(&text2ltree("a").eq(b())), "text2ltree($1) = \"t\".\"b\"");
}

#[test]
fn plain_equality_of_other_values_is_untouched() {
    assert!(Operator::Eq.eq(&Operator::Eq));
    assert!(Operator::Eq.ne(&Operator::NotEq));
    assert!("a.b".eq("a.b"));
    assert!(7.ne(&8));
}

#[test]
fn gt_is_written_with_its_symbol() {
    assert_eq!(text(&a().gt(b())), "\"t\".\"a\" > \"t\".\"b\"");
}

#[test]
fn ge_is_written_with_its_symbol() {
    assert_eq!(text(&a().ge(b())), "\"t\".\"a\" >= \"t\".\"b\"");
}

#[test]
fn lt_is_written_with_its_symbol() {
    assert_eq!(text(&a().lt(b())), "\"t\".\"a\" < \"t\".\"b\"");
}

#[test]
fn le_is_written_with_its_symbol() {
    assert_eq!(text(&a().le(b())), "\"t\".\"a\" <= \"t\".\"b\"");
}

#[test]
fn each_method_builds_the_node_of_its_operator() {
    assert_eq!(a().contains(b()).operator, Operator::Contains);
    assert_eq!(a().contained_by(b()).operator, Operator::ContainedBy);
    assert_eq!(LtreeExtensions::eq(a(), b()).operator, Operator::Eq);
    assert_eq!(LtreeExtensions::ne(a(), b()).operator, Operator::NotEq);
    assert_eq!(a().gt(b()).operator, Operator::Gt);
    assert_eq!(a().ge(b()).operator, Operator::GtEq);
    assert_eq!(a().lt(b()).operator, Operator::Lt);
    assert_eq!(a().le(b()).operator, Operator::LtEq);
}

#[test]
fn a_node_owns_its_operands_in_order() {
    let node = a().contains(b());
    assert_eq!(node.left.table, "t");
    assert_eq!(node.left.name, "a");
    assert_eq!(node.right.name, "b");
}

#[test]
fn operator_symbols() {
    assert_eq!(Operator::Contains.as_str(), "@>");
    assert_eq!(Operator::ContainedBy.as_str(), "<@");
    assert_eq!(Operator::Eq.as_str(), "=");
    assert_eq!(Operator::NotEq.as_str(), "<>");
    assert_eq!(Operator::Gt.as_str(), ">");
    assert_eq!(Operator::GtEq.as_str(), ">=");
    assert_eq!(Operator::Lt.as_str(), "<");
    assert_eq!(Operator::LtEq.as_str(), "<=");
}

#[test]
fn operator_infix_text_is_the_symbol_between_spaces() {
    let all = [
        Operator::Contains,
        Operator::ContainedBy,
        Operator::Eq,
        Operator::NotEq,
        Operator::Gt,
        Operator::GtEq,
        Operator::Lt,
        Operator::LtEq,
    ];
    for operator in all {
        assert_eq!(operator.infix_sql(), format!(" {} ", operator.as_str()));
    }
}

#[test]
fn infix_new_keeps_what_it_is_given() {
    let node = Infix::new(Operator::Lt, a(), b());
    assert_eq!(node.operator, Operator::Lt);
    assert_eq!(text(&node), "\"t\".\"a\" < \"t\".\"b\"");
}

#[test]
fn the_right_operand_may_be_a_call() {
    let node = a().contains(text2ltree("a.b"));
    assert_eq!(text(&node), "\"t\".\"a\" @> text2ltree($1)");
}

#[test]
fn binds_of_the_right_operand_are_numbered_after_the_left() {
    let node = text2ltree("x.y").contained_by(text2ltree("x"));
    assert_eq!(text(&node), "text2ltree($1) <@ text2ltree($2)");
    assert_eq!(node.bind_count(), Some(2));
}

#[test]
fn predicate_on_a_path_column() {
    let path_column = Column::<Ltree>::new("nodes", "path");
    let predicate = path_column.contains(text2ltree("a.b"));
    assert_eq!(text(&predicate), "\"nodes\".\"path\" @> text2ltree($1)");
    assert_eq!(predicate.right.arguments.0.item, "a.b");
}
