use vstd::prelude::*;
use std::rc::Rc;
use crate::sql::{SqlContext, marker, fits, rendered};
use crate::value::{SqlType, SqlValue};
use std::marker::PhantomData;

verus! {

/// A column reference or a raw SQL fragment, usable as a predicate operand.
#[derive(Clone, Debug)]
pub enum Expression {
    /// A column, written as its name.
    Column(String),
    /// Text written as it stands.
    Raw(String),
}

/// A shared, immutable handle on an expression.
pub type SharedExpression = Rc<Expression>;

/// The text of an expression.
pub open spec fn expression_sql(e: Expression) -> Seq<char> {
    match e {
        Expression::Column(name) => name@,
        Expression::Raw(text) => text@,
    }
}

impl Expression {
    /// A reference to the column `name`.
    pub fn column(name: &str) -> (r: Expression)
        ensures
            r is Column,
            expression_sql(r) == name@,
    {
        Expression::Column(String::from_str(name))
    }

    /// A raw fragment, rendered verbatim.
    pub fn raw(text: &str) -> (r: Expression)
        ensures
            r is Raw,
            expression_sql(r) == text@,
    {
        Expression::Raw(String::from_str(text))
    }

    /// The shared handle on this expression.
    pub fn upcast(self) -> (r: SharedExpression)
        ensures
            *r == self,
    {
        Rc::new(self)
    }

    /// The text of this expression.
    pub fn to_sql(&self) -> (r: String)
        ensures
            r@ == expression_sql(*self),
    {
        match self {
            Expression::Column(name) => name.clone(),
            Expression::Raw(text) => text.clone(),
        }
    }
}

/// An operand of a predicate: a value to bind, or an expression written in
/// place.
#[derive(Clone, Debug)]
pub enum Operand {
    Value(SqlValue),
    Expr(SharedExpression),
}

/// The text of an operand whose value, if any, takes the implicit
/// placeholder `start`.
pub open spec fn operand_sql(o: Operand, start: nat) -> Seq<char> {
    match o {
        Operand::Value(_) => marker(start),
        Operand::Expr(e) => expression_sql(*e),
    }
}

/// The values that an operand binds.
pub open spec fn operand_values(o: Operand) -> Seq<SqlValue> {
    match o {
        Operand::Value(v) => seq![v],
        Operand::Expr(_) => Seq::empty(),
    }
}

impl Operand {
    /// Renders the operand: a value is bound through `ctx`, an expression is
    /// written as it stands.
    pub fn to_sql(&self, ctx: &mut SqlContext) -> (r: String)
        requires
            fits(*old(ctx), operand_values(*self)),
        ensures
            r@ == operand_sql(*self, old(ctx).implicit()),
            rendered(*old(ctx), *final(ctx), operand_values(*self)),
    {
        match self {
            Operand::Value(v) => {
                let r = ctx.hold(v.duplicate());
                assert(ctx.values() =~= old(ctx).values() + operand_values(*self));
                r
            },
            Operand::Expr(e) => e.to_sql(),
        }
    }
}

/// An expression whose SQL value type is `T`: a column of that type, or a
/// raw fragment declared to have it. Predicates over a field take operands
/// of the same type only.
pub struct Field<T> {
    expr: SharedExpression,
    tag: PhantomData<T>,
}

impl<T> Field<T> {
    /// The untyped expression.
    pub closed spec fn spec_expr(&self) -> SharedExpression {
        self.expr
    }

    /// The column `name`, holding values of type `T`.
    pub fn column(name: &str) -> (r: Field<T>)
        ensures
            *r.spec_expr() is Column,
            expression_sql(*r.spec_expr()) == name@,
    {
        Field { expr: Rc::new(Expression::column(name)), tag: PhantomData }
    }

    /// A raw fragment of type `T`, rendered verbatim.
    pub fn raw(text: &str) -> (r: Field<T>)
        ensures
            *r.spec_expr() is Raw,
            expression_sql(*r.spec_expr()) == text@,
    {
        Field { expr: Rc::new(Expression::raw(text)), tag: PhantomData }
    }

    /// The shared, untyped handle on this field's expression.
    pub fn upcast(&self) -> (r: SharedExpression)
        ensures
            r == self.spec_expr(),
    {
        self.expr.clone()
    }
}

/// Something usable as an operand of type `T`: a value of that type, or a
/// field of that type.
pub trait ToExpression<T> {
    /// The operand that `self` becomes.
    spec fn as_operand(&self) -> Operand;

    fn to_operand(self) -> (r: Operand)
        ensures
            r == self.as_operand(),
    ;
}

impl<T: SqlType> ToExpression<T> for T {
    open spec fn as_operand(&self) -> Operand {
        Operand::Value(self.as_value())
    }

    fn to_operand(self) -> (r: Operand) {
        Operand::Value(self.to_value())
    }
}

impl<T> ToExpression<T> for Field<T> {
    open spec fn as_operand(&self) -> Operand {
        Operand::Expr(self.spec_expr())
    }

    fn to_operand(self) -> (r: Operand) {
        Operand::Expr(self.expr)
    }
}

} // verus!
