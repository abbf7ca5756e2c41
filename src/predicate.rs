use vstd::prelude::*;
use std::rc::Rc;
use crate::expression::{
    Field, Operand, SharedExpression, ToExpression, expression_sql, operand_sql, operand_values,
};
use crate::range::{InRangePredicate, range_sql, range_values};
use crate::sql::{MAX_PLACEHOLDERS, QueryToSql, SqlContext, ToSql, fits, rendered, substitute};
use crate::value::SqlValue;

verus! {

/// An ordering comparison.
#[derive(Clone, Copy, Debug, PartialEq, Eq)]
pub enum Inequality {
    LessThan,
    LessThanEqual,
    GreaterThan,
    GreaterThanEqual,
    NotEqual,
}

/// The operator of a comparison.
pub open spec fn inequality_op(op: Inequality) -> Seq<char> {
    match op {
        Inequality::LessThan => "<"@,
        Inequality::LessThanEqual => "<="@,
        Inequality::GreaterThan => ">"@,
        Inequality::GreaterThanEqual => ">="@,
        Inequality::NotEqual => "<>"@,
    }
}

fn inequality_str(op: Inequality) -> (r: &'static str)
    ensures
        r@ == inequality_op(op),
{
    match op {
        Inequality::LessThan => "<",
        Inequality::LessThanEqual => "<=",
        Inequality::GreaterThan => ">",
        Inequality::GreaterThanEqual => ">=",
        Inequality::NotEqual => "<>",
    }
}

/// A boolean SQL condition. Nodes never change once built, so subtrees are
/// shared freely between trees.
#[derive(Clone, Debug)]
pub enum Predicate {
    /// `field = value`.
    Is(SharedExpression, Operand),
    /// `field IS NULL` when the flag is set, else `field IS NOT NULL`.
    IsNull(SharedExpression, bool),
    /// `field IN (v1, v2, ...)`; always false when the list is empty.
    In(SharedExpression, Vec<Operand>),
    /// A range check.
    InRange(InRangePredicate),
    /// `field LIKE pattern`.
    Like(SharedExpression, Operand),
    /// `field <op> value`.
    Inequality(SharedExpression, Inequality, Operand),
    /// `(left AND right)`.
    And(SharedPredicate, SharedPredicate),
    /// `(left OR right)`.
    Or(SharedPredicate, SharedPredicate),
    /// `NOT (inner)`.
    Exclude(SharedPredicate),
    /// Text written as it stands, unchecked. The final pass still replaces
    /// text in it that has the shape of a placeholder marker.
    Raw(String),
}

/// A shared, immutable handle on a predicate.
pub type SharedPredicate = Rc<Predicate>;

/// The values that a list of operands binds, in order.
pub open spec fn list_values(s: Seq<Operand>) -> Seq<SqlValue>
    decreases s.len(),
{
    if s.len() == 0 {
        Seq::empty()
    } else {
        list_values(s.drop_last()) + operand_values(s.last())
    }
}

/// The operands of `s`, separated by `, `, the first value bound taking the
/// implicit placeholder `start`.
pub open spec fn list_sql(s: Seq<Operand>, start: nat) -> Seq<char>
    decreases s.len(),
{
    if s.len() == 0 {
        Seq::empty()
    } else if s.len() == 1 {
        operand_sql(s[0], start)
    } else {
        list_sql(s.drop_last(), start) + ", "@ + operand_sql(
            s.last(),
            start + list_values(s.drop_last()).len(),
        )
    }
}

/// The values that a predicate binds, in the order of a depth-first,
/// left-to-right walk.
pub open spec fn pred_values(p: Predicate) -> Seq<SqlValue>
    decreases p,
{
    match p {
        Predicate::Is(_, o) => operand_values(o),
        Predicate::IsNull(_, _) => Seq::empty(),
        Predicate::In(_, vs) => list_values(vs@),
        Predicate::InRange(r) => range_values(r),
        Predicate::Like(_, o) => operand_values(o),
        Predicate::Inequality(_, _, o) => operand_values(o),
        Predicate::And(a, b) => pred_values(*a) + pred_values(*b),
        Predicate::Or(a, b) => pred_values(*a) + pred_values(*b),
        Predicate::Exclude(a) => pred_values(*a),
        Predicate::Raw(_) => Seq::empty(),
    }
}

/// The text of a predicate whose first bound value takes the implicit
/// placeholder `start`.
pub open spec fn pred_sql(p: Predicate, start: nat) -> Seq<char>
    decreases p,
{
    match p {
        Predicate::Is(f, o) => expression_sql(*f) + " = "@ + operand_sql(o, start),
        Predicate::IsNull(f, true) => expression_sql(*f) + " IS NULL"@,
        Predicate::IsNull(f, false) => expression_sql(*f) + " IS NOT NULL"@,
        Predicate::In(f, vs) => if vs@.len() == 0 {
            "1 = 0"@
        } else {
            expression_sql(*f) + " IN ("@ + list_sql(vs@, start) + ")"@
        },
        Predicate::InRange(r) => range_sql(r, start),
        Predicate::Like(f, o) => expression_sql(*f) + " LIKE "@ + operand_sql(o, start),
        Predicate::Inequality(f, op, o) => expression_sql(*f) + " "@ + inequality_op(op) + " "@
            + operand_sql(o, start),
        Predicate::And(a, b) => "("@ + pred_sql(*a, start) + " AND "@ + pred_sql(
            *b,
            start + pred_values(*a).len(),
        ) + ")"@,
        Predicate::Or(a, b) => "("@ + pred_sql(*a, start) + " OR "@ + pred_sql(
            *b,
            start + pred_values(*a).len(),
        ) + ")"@,
        Predicate::Exclude(a) => "NOT ("@ + pred_sql(*a, start) + ")"@,
        Predicate::Raw(text) => text@,
    }
}

/// Renders `field IN (...)`, or the always-false `1 = 0` for no operands.
fn render_in(f: &SharedExpression, vs: &Vec<Operand>, ctx: &mut SqlContext) -> (r: String)
    requires
        fits(*old(ctx), list_values(vs@)),
    ensures
        r@ == (if vs@.len() == 0 {
            "1 = 0"@
        } else {
            expression_sql(**f) + " IN ("@ + list_sql(vs@, old(ctx).implicit()) + ")"@
        }),
        rendered(*old(ctx), *final(ctx), list_values(vs@)),
{
    if vs.len() == 0 {
        assert(ctx.values() =~= old(ctx).values() + list_values(vs@));
        return String::from_str("1 = 0");
    }
    let ghost start = ctx.implicit();
    let mut items = String::new();
    let mut j: usize = 0;
    assert(vs@.take(0) =~= Seq::<Operand>::empty());
    assert(ctx.values() =~= old(ctx).values() + list_values(vs@.take(0)));
    while j < vs.len()
        invariant
            j <= vs@.len(),
            vs@.len() > 0,
            start == old(ctx).implicit(),
            items@ == list_sql(vs@.take(j as int), start),
            rendered(*old(ctx), *ctx, list_values(vs@.take(j as int))),
            fits(*old(ctx), list_values(vs@)),
        decreases vs@.len() - j,
    {
        proof {
            lemma_list_values_prefix(vs@, j as int + 1);
            assert(vs@.take(j + 1).drop_last() =~= vs@.take(j as int));
            assert(list_values(vs@.take(j + 1)) == list_values(vs@.take(j as int))
                + operand_values(vs@[j as int]));
        }
        let s = vs[j].to_sql(ctx);
        if j > 0 {
            items.append(", ");
        }
        items.append(s.as_str());
        assert(ctx.values() =~= old(ctx).values() + list_values(vs@.take(j + 1)));
        j = j + 1;
    }
    assert(vs@.take(vs@.len() as int) =~= vs@);
    let mut out = f.to_sql();
    out.append(" IN (");
    out.append(items.as_str());
    out.append(")");
    out
}

/// The values of a prefix of a list are no more than those of the list.
proof fn lemma_list_values_prefix(s: Seq<Operand>, k: int)
    requires
        0 <= k <= s.len(),
    ensures
        list_values(s.take(k)).len() <= list_values(s).len(),
    decreases s.len() - k,
{
    if k < s.len() {
        lemma_list_values_prefix(s, k + 1);
        assert(s.take(k + 1).drop_last() =~= s.take(k));
    } else {
        assert(s.take(k) =~= s);
    }
}

/// Renders `p` depth-first, binding its values through `ctx` in order.
fn render(p: &Predicate, ctx: &mut SqlContext) -> (r: String)
    requires
        fits(*old(ctx), pred_values(*p)),
    ensures
        r@ == pred_sql(*p, old(ctx).implicit()),
        rendered(*old(ctx), *final(ctx), pred_values(*p)),
    decreases p,
{
    match p {
        Predicate::Is(f, o) => {
            let v = o.to_sql(ctx);
            let mut out = f.to_sql();
            out.append(" = ");
            out.append(v.as_str());
            out
        },
        Predicate::IsNull(f, null) => {
            let mut out = f.to_sql();
            if *null {
                out.append(" IS NULL");
            } else {
                out.append(" IS NOT NULL");
            }
            assert(ctx.values() =~= old(ctx).values() + pred_values(*p));
            out
        },
        Predicate::In(f, vs) => render_in(f, vs, ctx),
        Predicate::InRange(r) => r.render(ctx),
        Predicate::Like(f, o) => {
            let v = o.to_sql(ctx);
            let mut out = f.to_sql();
            out.append(" LIKE ");
            out.append(v.as_str());
            out
        },
        Predicate::Inequality(f, op, o) => {
            let v = o.to_sql(ctx);
            let mut out = f.to_sql();
            out.append(" ");
            out.append(inequality_str(*op));
            out.append(" ");
            out.append(v.as_str());
            out
        },
        Predicate::And(a, b) => {
            let l = render(a, ctx);
            let rr = render(b, ctx);
            let mut out = String::from_str("(");
            out.append(l.as_str());
            out.append(" AND ");
            out.append(rr.as_str());
            out.append(")");
            assert(ctx.values() =~= old(ctx).values() + pred_values(*p));
            out
        },
        Predicate::Or(a, b) => {
            let l = render(a, ctx);
            let rr = render(b, ctx);
            let mut out = String::from_str("(");
            out.append(l.as_str());
            out.append(" OR ");
            out.append(rr.as_str());
            out.append(")");
            assert(ctx.values() =~= old(ctx).values() + pred_values(*p));
            out
        },
        Predicate::Exclude(a) => {
            let inner = render(a, ctx);
            let mut out = String::from_str("NOT (");
            out.append(inner.as_str());
            out.append(")");
            out
        },
        Predicate::Raw(text) => {
            assert(ctx.values() =~= old(ctx).values() + pred_values(*p));
            text.clone()
        },
    }
}

impl ToSql for Predicate {
    open spec fn sql_text(&self, start: nat) -> Seq<char> {
        pred_sql(*self, start)
    }

    open spec fn bound_values(&self) -> Seq<SqlValue> {
        pred_values(*self)
    }

    fn to_sql(&self, ctx: &mut SqlContext) -> (r: String) {
        render(self, ctx)
    }
}

impl QueryToSql for Predicate {

}

/// `n`, or `cap` where `n` is larger.
pub open spec fn capped(n: nat, cap: nat) -> nat {
    if n < cap {
        n
    } else {
        cap
    }
}

fn operand_count(o: &Operand, cap: u64) -> (r: u64)
    ensures
        r as nat == capped(operand_values(*o).len(), cap as nat),
{
    match o {
        Operand::Value(_) => if cap == 0 { 0 } else { 1 },
        Operand::Expr(_) => 0,
    }
}

/// Adds two capped counts, capping the sum.
fn add_capped(x: u64, y: u64, cap: u64) -> (r: u64)
    requires
        x <= cap,
        y <= cap,
    ensures
        r as nat == capped((x + y) as nat, cap as nat),
{
    if cap - x <= y {
        cap
    } else {
        x + y
    }
}

/// The number of values that `p` binds, or `cap` where it binds more.
pub fn bound_count(p: &Predicate, cap: u64) -> (r: u64)
    ensures
        r as nat == capped(pred_values(*p).len(), cap as nat),
    decreases p,
{
    match p {
        Predicate::Is(_, o) => operand_count(o, cap),
        Predicate::IsNull(_, _) => 0,
        Predicate::In(_, vs) => {
            let mut total: u64 = 0;
            let mut j: usize = 0;
            while j < vs.len()
                invariant
                    j <= vs@.len(),
                    total as nat == capped(list_values(vs@.take(j as int)).len(), cap as nat),
                decreases vs@.len() - j,
            {
                assert(vs@.take(j + 1).drop_last() =~= vs@.take(j as int));
                total = add_capped(total, operand_count(&vs[j], cap), cap);
                j = j + 1;
            }
            assert(vs@.take(vs@.len() as int) =~= vs@);
            total
        },
        Predicate::InRange(r) => {
            add_capped(operand_count(r.get_from(), cap), operand_count(r.get_to(), cap), cap)
        },
        Predicate::Like(_, o) => operand_count(o, cap),
        Predicate::Inequality(_, _, o) => operand_count(o, cap),
        Predicate::And(a, b) => add_capped(bound_count(a, cap), bound_count(b, cap), cap),
        Predicate::Or(a, b) => add_capped(bound_count(a, cap), bound_count(b, cap), cap),
        Predicate::Exclude(a) => bound_count(a, cap),
        Predicate::Raw(_) => 0,
    }
}

impl Predicate {
    /// Renders `self` as a whole statement when `ctx` has room for all the
    /// values it binds; otherwise leaves `ctx` as it is and gives `None`.
    pub fn try_to_final_sql(&self, ctx: &mut SqlContext) -> (r: Option<String>)
        requires
            old(ctx).wf(),
        ensures
            r is Some <==> fits(*old(ctx), pred_values(*self)),
            r is None ==> *final(ctx) == *old(ctx),
            r is Some ==> rendered(*old(ctx), *final(ctx), pred_values(*self)),
            r is Some ==> r->0@ == substitute(
                pred_sql(*self, old(ctx).implicit()),
                final(ctx).implicit(),
                final(ctx).explicit() + 1,
                final(ctx).adapter_spec(),
            ) + ";"@,
    {
        let used = ctx.get_impl_placeholders_count() as u64;
        let room = MAX_PLACEHOLDERS as u64 - used;
        let n = bound_count(self, room + 1);
        if n > room {
            None
        } else {
            Some(self.to_final_sql(ctx))
        }
    }
}

/// Turns a predicate into a shared handle.
pub trait ToSharedPredicate: Sized {
    /// The predicate that the handle will hold.
    spec fn as_predicate(&self) -> Predicate;

    fn upcast(self) -> (r: SharedPredicate)
        ensures
            *r == self.as_predicate(),
    ;
}

impl ToSharedPredicate for Predicate {
    open spec fn as_predicate(&self) -> Predicate {
        *self
    }

    fn upcast(self) -> (r: SharedPredicate) {
        Rc::new(self)
    }
}

impl ToSharedPredicate for InRangePredicate {
    open spec fn as_predicate(&self) -> Predicate {
        Predicate::InRange(*self)
    }

    fn upcast(self) -> (r: SharedPredicate) {
        Rc::new(Predicate::InRange(self))
    }
}

/// Logical combinations of shared predicates; each builds a new node over
/// the existing ones and leaves them as they are.
pub trait PredicateCombinators {
    /// The handle that the combinations are built on.
    spec fn node(&self) -> SharedPredicate;

    /// `(self AND other)`.
    fn and(&self, other: SharedPredicate) -> (r: SharedPredicate)
        ensures
            *r == Predicate::And(self.node(), other),
    ;

    /// `(self OR other)`.
    fn or(&self, other: SharedPredicate) -> (r: SharedPredicate)
        ensures
            *r == Predicate::Or(self.node(), other),
    ;

    /// `NOT (self)`.
    fn exclude(&self) -> (r: SharedPredicate)
        ensures
            *r == Predicate::Exclude(self.node()),
    ;
}

impl PredicateCombinators for SharedPredicate {
    open spec fn node(&self) -> SharedPredicate {
        *self
    }

    fn and(&self, other: SharedPredicate) -> (r: SharedPredicate) {
        Rc::new(Predicate::And(self.clone(), other))
    }

    fn or(&self, other: SharedPredicate) -> (r: SharedPredicate) {
        Rc::new(Predicate::Or(self.clone(), other))
    }

    fn exclude(&self) -> (r: SharedPredicate) {
        Rc::new(Predicate::Exclude(self.clone()))
    }
}

impl<T> Field<T> {
    /// `self = value`.
    pub fn is<V: ToExpression<T>>(&self, value: V) -> (r: SharedPredicate)
        ensures
            *r == Predicate::Is(self.spec_expr(), value.as_operand()),
    {
        Rc::new(Predicate::Is(self.upcast(), value.to_operand()))
    }

    /// `self IS NULL`.
    pub fn is_null(&self) -> (r: SharedPredicate)
        ensures
            *r == Predicate::IsNull(self.spec_expr(), true),
    {
        Rc::new(Predicate::IsNull(self.upcast(), true))
    }

    /// `self IS NOT NULL`.
    pub fn is_not_null(&self) -> (r: SharedPredicate)
        ensures
            *r == Predicate::IsNull(self.spec_expr(), false),
    {
        Rc::new(Predicate::IsNull(self.upcast(), false))
    }

    /// `self IN (values...)`, the values in the order given.
    pub fn in_<V: ToExpression<T>>(&self, values: Vec<V>) -> (r: SharedPredicate)
        ensures
            *r is In,
            r->In_0 == self.spec_expr(),
            r->In_1@ == values@.map_values(|v: V| v.as_operand()),
    {
        let ghost orig = values@;
        let n = values.len();
        let mut rest = values;
        let mut ops: Vec<Operand> = Vec::new();
        let mut k: usize = 0;
        while rest.len() > 0
            invariant
                k <= orig.len(),
                n == orig.len(),
                rest@ == orig.skip(k as int),
                ops@ == orig.take(k as int).map_values(|v: V| v.as_operand()),
            decreases rest@.len(),
        {
            let v = rest.remove(0);
            ops.push(v.to_operand());
            k = k + 1;
            assert(rest@ =~= orig.skip(k as int));
            assert(ops@ =~= orig.take(k as int).map_values(|v: V| v.as_operand()));
        }
        assert(orig.take(k as int) =~= orig);
        Rc::new(Predicate::In(self.upcast(), ops))
    }

    /// `self <op> value`.
    pub fn inequality<V: ToExpression<T>>(&self, op: Inequality, value: V) -> (r: SharedPredicate)
        ensures
            *r == Predicate::Inequality(self.spec_expr(), op, value.as_operand()),
    {
        Rc::new(Predicate::Inequality(self.upcast(), op, value.to_operand()))
    }
}

impl Field<String> {
    /// `self LIKE pattern`.
    pub fn like<V: ToExpression<String>>(&self, pattern: V) -> (r: SharedPredicate)
        ensures
            *r == Predicate::Like(self.spec_expr(), pattern.as_operand()),
    {
        Rc::new(Predicate::Like(self.upcast(), pattern.to_operand()))
    }
}

impl Predicate {
    /// Text written as it stands.
    pub fn raw(text: &str) -> (r: SharedPredicate)
        ensures
            *r is Raw,
            r->Raw_0@ == text@,
    {
        Rc::new(Predicate::Raw(String::from_str(text)))
    }
}

} // verus!
