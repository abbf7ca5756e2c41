use std::rc::Rc;

use sql_predicate::adapter::SqlAdapter;
use sql_predicate::expression::{Expression, Field, Operand, SharedExpression};
use sql_predicate::group_by::GroupBy;
use sql_predicate::predicate::{
    bound_count, Inequality, Predicate, PredicateCombinators, SharedPredicate, 
};
use sql_predicate::range::{InRangeBounds, ToInRangePredicate};
use sql_predicate::sql::{QueryToSql, SqlContext, ToSql};
use sql_predicate::value::{SqlValue, Timespec};

fn col(name: &str) -> SharedExpression {
    Expression::column(name).upcast()
}

fn int_field(name: &str) -> Field<i32> {
    Field::column(name)
}

fn render(p: &SharedPredicate, adapter: SqlAdapter) -> (String, Vec<SqlValue>) {
    let mut ctx = SqlContext::new(adapter);
    let sql = p.to_final_sql(&mut ctx);
    (sql, ctx.data().to_vec())
}

#[test]
fn in_range_include_both() {
    let p = int_field("field").in_range(1, 10);
    let (sql, data) = render(&p, SqlAdapter::PostgreSql);
    assert_eq!(sql, "field >= $1 AND field <= $2;");
    assert_eq!(data, vec![SqlValue::I32(1), SqlValue::I32(10)]);
}

#[test]
fn in_range_exclude_both() {
    let p = int_field("field").in_range_exclude(1, 10);
    assert_eq!(render(&p, SqlAdapter::PostgreSql).0, "field > $1 AND field < $2;");
}

#[test]
fn in_range_exclude_left() {
    let p = int_field("field").in_range_exclude_left(1, 10);
    assert_eq!(render(&p, SqlAdapter::PostgreSql).0, "field > $1 AND field <= $2;");
}

#[test]
fn in_range_exclude_right() {
    let p = int_field("field").in_range_exclude_right(1, 10);
    assert_eq!(render(&p, SqlAdapter::PostgreSql).0, "field >= $1 AND field < $2;");
}

#[test]
fn in_range_getters() {
    let f = int_field("age");
    let p = f.in_range_exclude_left(3, 4);
    match &*p {
        Predicate::InRange(r) => {
            assert!(Rc::ptr_eq(r.get_field(), &f.upcast()));
            assert!(matches!(r.get_from(), Operand::Value(SqlValue::I32(3))));
            assert!(matches!(r.get_to(), Operand::Value(SqlValue::I32(4))));
            assert_eq!(*r.get_bounds(), InRangeBounds::ExcludeLeft);
        }
        _ => panic!("not a range check"),
    }
    assert_eq!(render(&p, SqlAdapter::Mysql).0, "age > ? AND age <= ?;");
}

#[test]
fn in_empty_is_always_false() {
    let p = int_field("field").in_(Vec::<i32>::new());
    let (sql, data) = render(&p, SqlAdapter::PostgreSql);
    assert_eq!(sql, "1 = 0;");
    assert!(!sql.contains("IN ()"));
    assert!(data.is_empty());
}

#[test]
fn in_binds_each_value_in_order() {
    let p = int_field("id").in_(vec![7, 8, 9]);
    let (sql, data) = render(&p, SqlAdapter::PostgreSql);
    assert_eq!(sql, "id IN ($1, $2, $3);");
    assert_eq!(data, vec![SqlValue::I32(7), SqlValue::I32(8), SqlValue::I32(9)]);
}

#[test]
fn in_single_value() {
    let p = int_field("id").in_(vec![5]);
    assert_eq!(render(&p, SqlAdapter::Mysql).0, "id IN (?);");
}

#[test]
fn and_of_two_equalities_numbers_in_order() {
    let p = int_field("f1").is(11).and(int_field("f2").is(22));
    let (sql, data) = render(&p, SqlAdapter::PostgreSql);
    assert_eq!(sql, "(f1 = $1 AND f2 = $2);");
    assert_eq!(data, vec![SqlValue::I32(11), SqlValue::I32(22)]);
}

#[test]
fn implicit_index_follows_explicit() {
    let p = int_field("f").is(1);
    let mut ctx = SqlContext::new(SqlAdapter::PostgreSql);
    ctx.expl_indexed_placeholder(3);
    assert_eq!(ctx.get_expl_placeholders_count(), 3);
    assert_eq!(p.to_final_sql(&mut ctx), "f = $4;");
}

#[test]
fn explicit_index_keeps_maximum() {
    let mut ctx = SqlContext::new(SqlAdapter::PostgreSql);
    ctx.expl_indexed_placeholder(5);
    ctx.expl_indexed_placeholder(2);
    assert_eq!(ctx.get_expl_placeholders_count(), 5);
}

#[test]
fn exclude_is_null() {
    let p = Field::<Option<i32>>::column("field").is_null().exclude();
    assert_eq!(render(&p, SqlAdapter::PostgreSql).0, "NOT (field IS NULL);");
}

#[test]
fn is_not_null() {
    let p = Field::<Option<i32>>::column("field").is_not_null();
    assert_eq!(render(&p, SqlAdapter::PostgreSql).0, "field IS NOT NULL;");
}

#[test]
fn adapter_swap_changes_only_tokens() {
    let p = int_field("a").is(1).or(Field::<String>::column("b").like("x%".to_string()));
    let (pg, pg_data) = render(&p, SqlAdapter::PostgreSql);
    let (my, my_data) = render(&p, SqlAdapter::Mysql);
    assert_eq!(pg, "(a = $1 OR b LIKE $2);");
    assert_eq!(my, "(a = ? OR b LIKE ?);");
    assert_eq!(pg_data, my_data);
}

#[test]
fn rendering_twice_is_deterministic() {
    let p = int_field("x").in_range(1, 2).and(int_field("y").in_(vec![3]));
    let first = render(&p, SqlAdapter::PostgreSql);
    let second = render(&p, SqlAdapter::PostgreSql);
    assert_eq!(first, second);
    assert_eq!(first.0, "(x >= $1 AND x <= $2 AND y IN ($3));");
}

#[test]
fn nested_combinations_are_parenthesized() {
    let a = Predicate::raw("a");
    let b = Predicate::raw("b");
    let c = Predicate::raw("c");
    let p = a.or(b).and(c);
    assert_eq!(render(&p, SqlAdapter::PostgreSql).0, "((a OR b) AND c);");
}

#[test]
fn inequality_operators() {
    let cases = [
        (Inequality::LessThan, "n < $1;"),
        (Inequality::LessThanEqual, "n <= $1;"),
        (Inequality::GreaterThan, "n > $1;"),
        (Inequality::GreaterThanEqual, "n >= $1;"),
        (Inequality::NotEqual, "n <> $1;"),
    ];
    for (op, expected) in cases {
        let p = int_field("n").inequality(op, 0);
        assert_eq!(render(&p, SqlAdapter::PostgreSql).0, expected);
    }
}

#[test]
fn expression_operand_binds_nothing() {
    let p = int_field("a").is(int_field("b"));
    let (sql, data) = render(&p, SqlAdapter::PostgreSql);
    assert_eq!(sql, "a = b;");
    assert!(data.is_empty());
}

#[test]
fn raw_expression_in_range() {
    let f = Field::<i32>::raw("now()");
    let p = f.in_range(int_field("lo"), 3);
    assert_eq!(render(&p, SqlAdapter::PostgreSql).0, "now() >= lo AND now() <= $1;");
}

#[test]
fn raw_predicate_verbatim() {
    let p = Predicate::raw("x = 'it''s'");
    assert_eq!(render(&p, SqlAdapter::PostgreSql).0, "x = 'it''s';");
}

#[test]
fn hold_returns_marker_and_counts() {
    let mut ctx = SqlContext::new(SqlAdapter::PostgreSql);
    assert_eq!(ctx.hold(SqlValue::Null), "$$000");
    assert_eq!(ctx.hold(SqlValue::Bool(true)), "$$001");
    assert_eq!(ctx.get_impl_placeholders_count(), 2);
    assert_eq!(ctx.data(), &[SqlValue::Null, SqlValue::Bool(true)][..]);
    assert_eq!(*ctx.adapter(), SqlAdapter::PostgreSql);
}

#[test]
fn finalize_keeps_text_that_is_no_marker() {
    let mut ctx = SqlContext::new(SqlAdapter::PostgreSql);
    let m = ctx.hold(SqlValue::I64(1));
    let body = format!("a = {} AND b = '$$x' AND c = '$$005'", m);
    assert_eq!(ctx.finalize(&body), "a = $1 AND b = '$$x' AND c = '$$005';");
}

#[test]
fn many_placeholders_number_past_nine() {
    let values: Vec<i32> = (0..12).collect();
    let p = int_field("v").in_(values);
    let (sql, data) = render(&p, SqlAdapter::PostgreSql);
    assert!(sql.ends_with("$10, $11, $12);"));
    assert_eq!(data.len(), 12);
}

#[test]
fn placeholder_tokens() {
    assert_eq!(SqlAdapter::PostgreSql.placeholder(1), "$1");
    assert_eq!(SqlAdapter::PostgreSql.placeholder(120), "$120");
    assert_eq!(SqlAdapter::Mysql.placeholder(7), "?");
}

#[test]
fn to_sql_leaves_markers() {
    let p = Field::<Timespec>::column("a").is(Timespec::new(5, 0).unwrap());
    let mut ctx = SqlContext::new(SqlAdapter::Mysql);
    assert_eq!(p.to_sql(&mut ctx), "a = $$000");
}

#[test]
fn group_by_keeps_order() {
    let a = col("a");
    let b = col("b");
    let g = GroupBy::by(&[a.clone(), b.clone()]);
    assert_eq!(g.get_by().len(), 2);
    assert!(Rc::ptr_eq(&g.get_by()[0], &a));
    assert!(Rc::ptr_eq(&g.get_by()[1], &b));
}

#[test]
fn value_duplicate_is_equal() {
    let v = SqlValue::Text("abc".to_string());
    assert_eq!(v.duplicate(), v);
}


#[test]
fn checked_render_refuses_too_many_values() {
    let values: Vec<i32> = (0..256).collect();
    let p = int_field("v").in_(values);
    assert_eq!(bound_count(&p, 1000), 256);
    assert_eq!(bound_count(&p, 10), 10);
    let mut ctx = SqlContext::new(SqlAdapter::PostgreSql);
    assert_eq!(p.try_to_final_sql(&mut ctx), None);
    assert_eq!(ctx.get_impl_placeholders_count(), 0);
    assert!(ctx.data().is_empty());
}

#[test]
fn checked_render_accepts_full_context() {
    let values: Vec<i32> = (0..255).collect();
    let p = int_field("v").in_(values);
    let mut ctx = SqlContext::new(SqlAdapter::PostgreSql);
    let sql = p.try_to_final_sql(&mut ctx).unwrap();
    assert!(sql.ends_with("$254, $255);"));
    assert_eq!(ctx.get_impl_placeholders_count(), 255);
}

#[test]
fn bound_count_of_tree() {
    let p = int_field("x").in_range(1, int_field("y")).or(int_field("z").is(2));
    assert_eq!(bound_count(&p, 100), 2);
    assert_eq!(bound_count(&Predicate::raw("1 = 1"), 100), 0);
}

#[test]
fn nullable_field_binds_null_and_values() {
    let f = Field::<Option<i64>>::column("n");
    let p = f.is(None::<i64>).or(f.is(Some(5i64)));
    let (sql, data) = render(&p, SqlAdapter::PostgreSql);
    assert_eq!(sql, "(n = $1 OR n = $2);");
    assert_eq!(data, vec![SqlValue::Null, SqlValue::I64(5)]);
}

#[test]
fn typed_values_become_their_sql_values() {
    let p = Field::<i8>::column("a").is(1i8)
        .and(Field::<i16>::column("b").is(2i16))
        .and(Field::<bool>::column("c").is(true))
        .and(Field::<String>::column("d").is("x".to_string()));
    let (_, data) = render(&p, SqlAdapter::Mysql);
    assert_eq!(
        data,
        vec![SqlValue::I8(1), SqlValue::I16(2), SqlValue::Bool(true), SqlValue::Text("x".to_string())]
    );
}

#[test]
fn timespec_range() {
    assert!(Timespec::new(0, 999_999_999).is_some());
    assert!(Timespec::new(0, 1_000_000_000).is_none());
    assert!(Timespec::new(59, 1_500_000_000).is_some());
    assert!(Timespec::new(-1, 1_500_000_000).is_some());
    assert!(Timespec::new(-2, 1_500_000_000).is_none());
    assert!(Timespec::new(8_210_266_876_799, 0).is_some());
    assert!(Timespec::new(8_210_266_876_800, 0).is_none());
    assert!(Timespec::new(-8_334_601_315_200, 0).is_some());
    assert!(Timespec::new(-8_334_601_315_201, 0).is_none());
    let t = Timespec::new(7, 8).unwrap();
    assert_eq!((t.secs(), t.nanos()), (7, 8));
}
