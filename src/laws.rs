//! Properties that hold of every predicate tree and every render pass.
use vstd::prelude::*;
use crate::adapter::{SqlAdapter, digit_char, placeholder_token};
use crate::expression::{Operand, SharedExpression, expression_sql};
use crate::predicate::{Predicate, SharedPredicate, pred_sql, pred_values};
use crate::range::{InRangeBounds, InRangePredicate, lower_op, range_sql, range_values, upper_op};
use crate::sql::{SqlContext, marker, marker_at, marker_value, rendered, substitute, is_digit, digit_value};
use crate::value::SqlValue;

verus! {

/// The final text of `p` rendered from context `before`, which became `after`.
pub open spec fn final_sql(p: Predicate, before: SqlContext, after: SqlContext) -> Seq<char> {
    substitute(
        pred_sql(p, before.implicit()),
        after.implicit(),
        after.explicit() + 1,
        after.adapter_spec(),
    ) + ";"@
}

/// Rendering one tree twice, from two contexts that agree, gives the same
/// text and the same bound values.
pub proof fn lemma_render_deterministic(
    p: Predicate,
    before1: SqlContext,
    after1: SqlContext,
    before2: SqlContext,
    after2: SqlContext,
)
    requires
        before1.values() == before2.values(),
        before1.implicit() == before2.implicit(),
        before1.explicit() == before2.explicit(),
        before1.adapter_spec() == before2.adapter_spec(),
        rendered(before1, after1, pred_values(p)),
        rendered(before2, after2, pred_values(p)),
    ensures
        after1.values() == after2.values(),
        after1.implicit() == after2.implicit(),
        after1.explicit() == after2.explicit(),
        final_sql(p, before1, after1) == final_sql(p, before2, after2),
{
}

/// A conjunction or disjunction is wrapped in parentheses, each side
/// rendered whole inside them, at any depth.
pub proof fn lemma_combinations_parenthesized(a: SharedPredicate, b: SharedPredicate, start: nat)
    ensures
        pred_sql(Predicate::And(a, b), start) == "("@ + pred_sql(*a, start) + " AND "@ + pred_sql(
            *b,
            start + pred_values(*a).len(),
        ) + ")"@,
        pred_sql(Predicate::Or(a, b), start) == "("@ + pred_sql(*a, start) + " OR "@ + pred_sql(
            *b,
            start + pred_values(*a).len(),
        ) + ")"@,
        pred_sql(Predicate::And(a, b), start)[0] == '(',
        pred_sql(Predicate::And(a, b), start).last() == ')',
        pred_sql(Predicate::Or(a, b), start)[0] == '(',
        pred_sql(Predicate::Or(a, b), start).last() == ')',
{
    reveal_strlit("(");
    reveal_strlit(")");
}

/// The comparisons of a range check: both ends included give `>=` and `<=`,
/// both excluded give `>` and `<`, and a mixed mode changes only its own side.
pub proof fn lemma_range_operators()
    ensures
        lower_op(InRangeBounds::IncludeBoth) == " >= "@,
        upper_op(InRangeBounds::IncludeBoth) == " <= "@,
        lower_op(InRangeBounds::ExcludeBoth) == " > "@,
        upper_op(InRangeBounds::ExcludeBoth) == " < "@,
        lower_op(InRangeBounds::ExcludeLeft) == lower_op(InRangeBounds::ExcludeBoth),
        upper_op(InRangeBounds::ExcludeLeft) == upper_op(InRangeBounds::IncludeBoth),
        lower_op(InRangeBounds::ExcludeRight) == lower_op(InRangeBounds::IncludeBoth),
        upper_op(InRangeBounds::ExcludeRight) == upper_op(InRangeBounds::ExcludeBoth),
{
}

/// A range check between two values renders both comparisons on the field,
/// the lower end taking placeholder `start` and the upper end the next one,
/// and binds the lower value, then the upper.
pub proof fn lemma_range_rendering(r: InRangePredicate, v1: SqlValue, v2: SqlValue, start: nat)
    requires
        r.spec_from() == Operand::Value(v1),
        r.spec_to() == Operand::Value(v2),
    ensures
        range_sql(r, start) == expression_sql(*r.spec_field()) + lower_op(r.spec_bounds()) + marker(
            start,
        ) + " AND "@ + expression_sql(*r.spec_field()) + upper_op(r.spec_bounds()) + marker(
            start + 1,
        ),
        range_values(r) == seq![v1, v2],
{
    assert(range_values(r) =~= seq![v1, v2]);
}

/// Membership in an empty list renders the always-false `1 = 0` and binds
/// nothing.
pub proof fn lemma_empty_in_always_false(field: SharedExpression, values: Vec<Operand>, start: nat)
    requires
        values@.len() == 0,
    ensures
        pred_sql(Predicate::In(field, values), start) == "1 = 0"@,
        pred_values(Predicate::In(field, values)) == Seq::<SqlValue>::empty(),
{
}

/// Two equalities joined by `AND` bind their values in order, the left one
/// taking the lower placeholder.
pub proof fn lemma_placeholder_order(
    left: SharedPredicate,
    right: SharedPredicate,
    f1: SharedExpression,
    v1: SqlValue,
    f2: SharedExpression,
    v2: SqlValue,
    start: nat,
)
    requires
        *left == Predicate::Is(f1, Operand::Value(v1)),
        *right == Predicate::Is(f2, Operand::Value(v2)),
    ensures
        pred_values(Predicate::And(left, right)) == seq![v1, v2],
        pred_sql(Predicate::And(left, right), start) == "("@ + expression_sql(*f1) + " = "@
            + marker(start) + " AND "@ + expression_sql(*f2) + " = "@ + marker(start + 1) + ")"@,
{
    assert(pred_values(*left) == seq![v1]);
    assert(pred_values(*right) == seq![v2]);
    assert(pred_values(Predicate::And(left, right)) =~= seq![v1, v2]);
    assert(pred_sql(*left, start) == expression_sql(*f1) + " = "@ + marker(start));
    assert(pred_sql(*right, start + 1) == expression_sql(*f2) + " = "@ + marker(start + 1));
    assert(pred_sql(Predicate::And(left, right), start) =~= "("@ + expression_sql(*f1) + " = "@
        + marker(start) + " AND "@ + expression_sql(*f2) + " = "@ + marker(start + 1) + ")"@);
}

/// Reading back the digits of a marker gives its index.
proof fn lemma_digit_value(d: nat)
    requires
        d < 10,
    ensures
        is_digit(digit_char(d)),
        digit_value(digit_char(d)) == d,
{
}

/// The marker of implicit placeholder `i` becomes the adapter's token for
/// index `first + i`.
pub proof fn lemma_marker_substitution(i: nat, count: nat, first: nat, a: SqlAdapter)
    requires
        i < count,
        i < 1000,
    ensures
        substitute(marker(i), count, first, a) == placeholder_token(a, first + i),
{
    let m = marker(i);
    lemma_digit_value(i / 100);
    lemma_digit_value((i / 10) % 10);
    lemma_digit_value(i % 10);
    assert(marker_value(m) == i);
    assert(marker_at(m, count));
    assert(m.skip(5).len() == 0);
    assert(substitute(m.skip(5), count, first, a) == Seq::<char>::empty());
    assert(substitute(m, count, first, a) =~= placeholder_token(a, first + i));
}

/// Once the caller has declared explicit index `explicit`, the first
/// implicit placeholder takes index `explicit + 1`.
pub proof fn lemma_implicit_follows_explicit(explicit: nat, a: SqlAdapter)
    ensures
        substitute(marker(0), 1, explicit + 1, a) == placeholder_token(a, explicit + 1),
{
    lemma_marker_substitution(0, 1, explicit + 1, a);
}

/// Negating a null check wraps it whole: `NOT (field IS NULL)`.
pub proof fn lemma_exclude_is_null(inner: SharedPredicate, field: SharedExpression, start: nat)
    requires
        *inner == Predicate::IsNull(field, true),
    ensures
        pred_sql(Predicate::Exclude(inner), start) == "NOT ("@ + expression_sql(*field)
            + " IS NULL"@ + ")"@,
{
    assert(pred_sql(*inner, start) == expression_sql(*field) + " IS NULL"@);
}

/// The final pass with any rule `token` for the text of a placeholder.
pub open spec fn substitute_with(
    s: Seq<char>,
    count: nat,
    first: nat,
    token: spec_fn(nat) -> Seq<char>,
) -> Seq<char>
    decreases s.len(),
{
    if s.len() == 0 {
        Seq::empty()
    } else if marker_at(s, count) {
        token(first + marker_value(s) as nat) + substitute_with(s.skip(5), count, first, token)
    } else {
        seq![s[0]] + substitute_with(s.skip(1), count, first, token)
    }
}

/// The adapter enters the final pass only through the text of its tokens.
pub proof fn lemma_substitute_tokens_only(s: Seq<char>, count: nat, first: nat, a: SqlAdapter)
    ensures
        substitute(s, count, first, a) == substitute_with(
            s,
            count,
            first,
            |k: nat| placeholder_token(a, k),
        ),
    decreases s.len(),
{
    if s.len() > 0 {
        if marker_at(s, count) {
            lemma_substitute_tokens_only(s.skip(5), count, first, a);
        } else {
            lemma_substitute_tokens_only(s.skip(1), count, first, a);
        }
    }
}

/// Text without placeholders comes out of the final pass unchanged.
pub proof fn lemma_substitute_without_placeholders(s: Seq<char>, first: nat, a: SqlAdapter)
    ensures
        substitute(s, 0, first, a) == s,
    decreases s.len(),
{
    if s.len() > 0 {
        lemma_substitute_without_placeholders(s.skip(1), first, a);
        assert(seq![s[0]] + s.skip(1) =~= s);
    }
}

/// Rendering one tree under two adapters binds the same values in the same
/// order, and both final texts are one substitution over the same
/// intermediate text: they differ only in the text of the placeholder tokens.
pub proof fn lemma_adapter_swap(
    p: Predicate,
    before1: SqlContext,
    after1: SqlContext,
    before2: SqlContext,
    after2: SqlContext,
)
    requires
        before1.values() == before2.values(),
        before1.implicit() == before2.implicit(),
        before1.explicit() == before2.explicit(),
        rendered(before1, after1, pred_values(p)),
        rendered(before2, after2, pred_values(p)),
    ensures
        after1.values() == after2.values(),
        after1.implicit() == after2.implicit(),
        final_sql(p, before1, after1) == substitute(
            pred_sql(p, before1.implicit()),
            after1.implicit(),
            after1.explicit() + 1,
            before1.adapter_spec(),
        ) + ";"@,
        final_sql(p, before2, after2) == substitute(
            pred_sql(p, before1.implicit()),
            after1.implicit(),
            after1.explicit() + 1,
            before2.adapter_spec(),
        ) + ";"@,
        final_sql(p, before1, after1) == substitute_with(
            pred_sql(p, before1.implicit()),
            after1.implicit(),
            after1.explicit() + 1,
            |k: nat| placeholder_token(before1.adapter_spec(), k),
        ) + ";"@,
        final_sql(p, before2, after2) == substitute_with(
            pred_sql(p, before1.implicit()),
            after1.implicit(),
            after1.explicit() + 1,
            |k: nat| placeholder_token(before2.adapter_spec(), k),
        ) + ";"@,
        pred_values(p).len() == 0 && before1.implicit() == 0 ==> final_sql(p, before1, after1)
            == final_sql(p, before2, after2),
{
    let t = pred_sql(p, before1.implicit());
    lemma_substitute_tokens_only(t, after1.implicit(), after1.explicit() + 1, before1.adapter_spec());
    lemma_substitute_tokens_only(t, after1.implicit(), after1.explicit() + 1, before2.adapter_spec());
    if pred_values(p).len() == 0 && before1.implicit() == 0 {
        let t = pred_sql(p, 0);
        lemma_substitute_without_placeholders(t, after1.explicit() + 1, before1.adapter_spec());
        lemma_substitute_without_placeholders(t, after2.explicit() + 1, before2.adapter_spec());
    }
}

} // verus!
