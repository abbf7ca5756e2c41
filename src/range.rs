use vstd::prelude::*;
use std::rc::Rc;
use crate::expression::{
    Field, Operand, SharedExpression, ToExpression, expression_sql, operand_sql, operand_values,
};
use crate::predicate::{Predicate, SharedPredicate};
use crate::sql::{SqlContext, fits, rendered};
use crate::value::SqlValue;

verus! {

/// Which ends of an interval belong to it.
#[derive(Clone, Copy, Debug, PartialEq, Eq)]
pub enum InRangeBounds {
    ExcludeBoth,
    IncludeBoth,
    ExcludeRight,
    ExcludeLeft,
}

/// The comparison against the lower end, with its surrounding spaces.
pub open spec fn lower_op(b: InRangeBounds) -> Seq<char> {
    match b {
        InRangeBounds::IncludeBoth | InRangeBounds::ExcludeRight => " >= "@,
        InRangeBounds::ExcludeBoth | InRangeBounds::ExcludeLeft => " > "@,
    }
}

/// The comparison against the upper end, with its surrounding spaces.
pub open spec fn upper_op(b: InRangeBounds) -> Seq<char> {
    match b {
        InRangeBounds::IncludeBoth | InRangeBounds::ExcludeLeft => " <= "@,
        InRangeBounds::ExcludeBoth | InRangeBounds::ExcludeRight => " < "@,
    }
}

fn lower_op_str(b: InRangeBounds) -> (r: &'static str)
    ensures
        r@ == lower_op(b),
{
    match b {
        InRangeBounds::IncludeBoth | InRangeBounds::ExcludeRight => " >= ",
        InRangeBounds::ExcludeBoth | InRangeBounds::ExcludeLeft => " > ",
    }
}

fn upper_op_str(b: InRangeBounds) -> (r: &'static str)
    ensures
        r@ == upper_op(b),
{
    match b {
        InRangeBounds::IncludeBoth | InRangeBounds::ExcludeLeft => " <= ",
        InRangeBounds::ExcludeBoth | InRangeBounds::ExcludeRight => " < ",
    }
}

/// `field` lies between `from` and `to`, each end included or not as
/// `bounds` says.
#[derive(Clone, Debug)]
pub struct InRangePredicate {
    field: SharedExpression,
    from: Operand,
    to: Operand,
    bounds: InRangeBounds,
}

/// The text of a range check whose first value takes the implicit
/// placeholder `start`.
pub open spec fn range_sql(r: InRangePredicate, start: nat) -> Seq<char> {
    let f = expression_sql(*r.spec_field());
    f + lower_op(r.spec_bounds()) + operand_sql(r.spec_from(), start) + " AND "@ + f
        + upper_op(r.spec_bounds()) + operand_sql(
        r.spec_to(),
        start + operand_values(r.spec_from()).len(),
    )
}

/// The values that a range check binds: its lower end's, then its upper end's.
pub open spec fn range_values(r: InRangePredicate) -> Seq<SqlValue> {
    operand_values(r.spec_from()) + operand_values(r.spec_to())
}

impl InRangePredicate {
    /// The expression checked.
    pub closed spec fn spec_field(&self) -> SharedExpression {
        self.field
    }

    /// The lower end.
    pub closed spec fn spec_from(&self) -> Operand {
        self.from
    }

    /// The upper end.
    pub closed spec fn spec_to(&self) -> Operand {
        self.to
    }

    /// Which ends belong to the interval.
    pub closed spec fn spec_bounds(&self) -> InRangeBounds {
        self.bounds
    }

    /// The range check of `field` between `from` and `to`.
    pub(crate) fn new(field: SharedExpression, from: Operand, to: Operand, bounds: InRangeBounds) -> (r:
        InRangePredicate)
        ensures
            r.spec_field() == field,
            r.spec_from() == from,
            r.spec_to() == to,
            r.spec_bounds() == bounds,
    {
        InRangePredicate { field, from, to, bounds }
    }

    /// The expression checked.
    pub fn get_field(&self) -> (r: &SharedExpression)
        ensures
            *r == self.spec_field(),
    {
        &self.field
    }

    /// The lower end.
    pub fn get_from(&self) -> (r: &Operand)
        ensures
            *r == self.spec_from(),
    {
        &self.from
    }

    /// The upper end.
    pub fn get_to(&self) -> (r: &Operand)
        ensures
            *r == self.spec_to(),
    {
        &self.to
    }

    /// Which ends belong to the interval.
    pub fn get_bounds(&self) -> (r: &InRangeBounds)
        ensures
            *r == self.spec_bounds(),
    {
        &self.bounds
    }

    /// Renders `field >= from AND field <= to`, the comparisons chosen by
    /// the bounds.
    pub fn render(&self, ctx: &mut SqlContext) -> (r: String)
        requires
            fits(*old(ctx), range_values(*self)),
        ensures
            r@ == range_sql(*self, old(ctx).implicit()),
            rendered(*old(ctx), *final(ctx), range_values(*self)),
    {
        let f = self.field.to_sql();
        let from = self.from.to_sql(ctx);
        let to = self.to.to_sql(ctx);
        let mut out = f.clone();
        out.append(lower_op_str(self.bounds));
        out.append(from.as_str());
        out.append(" AND ");
        out.append(f.as_str());
        out.append(upper_op_str(self.bounds));
        out.append(to.as_str());
        assert(ctx.values() =~= old(ctx).values() + range_values(*self));
        out
    }
}

/// `p` is the range check of `field` between `from` and `to` under `bounds`.
pub open spec fn is_range(
    p: Predicate,
    field: SharedExpression,
    from: Operand,
    to: Operand,
    bounds: InRangeBounds,
) -> bool {
    &&& p is InRange
    &&& p->InRange_0.spec_field() == field
    &&& p->InRange_0.spec_from() == from
    &&& p->InRange_0.spec_to() == to
    &&& p->InRange_0.spec_bounds() == bounds
}

/// Range checks on an expression of type `T`, whose ends have that type too.
pub trait ToInRangePredicate<T> {
    /// The expression that the checks are about.
    spec fn range_subject(&self) -> SharedExpression;

    /// `from <= self <= to`.
    fn in_range<B1: ToExpression<T>, B2: ToExpression<T>>(&self, from: B1, to: B2) -> (r:
        SharedPredicate)
        ensures
            is_range(*r, self.range_subject(), from.as_operand(), to.as_operand(), InRangeBounds::IncludeBoth),
    ;

    /// `from < self <= to`.
    fn in_range_exclude_left<B1: ToExpression<T>, B2: ToExpression<T>>(&self, from: B1, to: B2) -> (r:
        SharedPredicate)
        ensures
            is_range(*r, self.range_subject(), from.as_operand(), to.as_operand(), InRangeBounds::ExcludeLeft),
    ;

    /// `from <= self < to`.
    fn in_range_exclude_right<B1: ToExpression<T>, B2: ToExpression<T>>(&self, from: B1, to: B2) -> (r:
        SharedPredicate)
        ensures
            is_range(*r, self.range_subject(), from.as_operand(), to.as_operand(), InRangeBounds::ExcludeRight),
    ;

    /// `from < self < to`.
    fn in_range_exclude<B1: ToExpression<T>, B2: ToExpression<T>>(&self, from: B1, to: B2) -> (r:
        SharedPredicate)
        ensures
            is_range(*r, self.range_subject(), from.as_operand(), to.as_operand(), InRangeBounds::ExcludeBoth),
    ;
}

impl<T> ToInRangePredicate<T> for Field<T> {
    open spec fn range_subject(&self) -> SharedExpression {
        self.spec_expr()
    }

    fn in_range<B1: ToExpression<T>, B2: ToExpression<T>>(&self, from: B1, to: B2) -> (r:
        SharedPredicate) {
        Rc::new(Predicate::InRange(InRangePredicate::new(self.upcast(), from.to_operand(), to.to_operand(), InRangeBounds::IncludeBoth)))
    }

    fn in_range_exclude_left<B1: ToExpression<T>, B2: ToExpression<T>>(&self, from: B1, to: B2) -> (r:
        SharedPredicate) {
        Rc::new(Predicate::InRange(InRangePredicate::new(self.upcast(), from.to_operand(), to.to_operand(), InRangeBounds::ExcludeLeft)))
    }

    fn in_range_exclude_right<B1: ToExpression<T>, B2: ToExpression<T>>(&self, from: B1, to: B2) -> (r:
        SharedPredicate) {
        Rc::new(Predicate::InRange(InRangePredicate::new(self.upcast(), from.to_operand(), to.to_operand(), InRangeBounds::ExcludeRight)))
    }

    fn in_range_exclude<B1: ToExpression<T>, B2: ToExpression<T>>(&self, from: B1, to: B2) -> (r:
        SharedPredicate) {
        Rc::new(Predicate::InRange(InRangePredicate::new(self.upcast(), from.to_operand(), to.to_operand(), InRangeBounds::ExcludeBoth)))
    }
}

} // verus!
