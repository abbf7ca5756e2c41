use vstd::prelude::*;
use crate::adapter::{SqlAdapter, digit_char, placeholder_token};
use crate::value::SqlValue;

verus! {

/// Whether `c` is a decimal digit.
pub open spec fn is_digit(c: char) -> bool {
    '0' <= c && c <= '9'
}

/// The value of the decimal digit `c`.
pub open spec fn digit_value(c: char) -> int {
    (c as int) - ('0' as int)
}

/// The internal marker that stands for the implicit placeholder of
/// zero-based index `i` until the final pass: `$$` and three digits.
pub open spec fn marker(i: nat) -> Seq<char> {
    seq!['$', '$', digit_char(i / 100), digit_char((i / 10) % 10), digit_char(i % 10)]
}

/// The index that the marker at the start of `s` encodes.
pub open spec fn marker_value(s: Seq<char>) -> int {
    100 * digit_value(s[2]) + 10 * digit_value(s[3]) + digit_value(s[4])
}

/// Whether `s` starts with the marker of an implicit placeholder below `count`.
pub open spec fn marker_at(s: Seq<char>, count: nat) -> bool {
    &&& s.len() >= 5
    &&& s[0] == '$'
    &&& s[1] == '$'
    &&& is_digit(s[2])
    &&& is_digit(s[3])
    &&& is_digit(s[4])
    &&& marker_value(s) < count
}

/// The final text: every marker of an implicit placeholder below `count` in
/// `s` is replaced, from left to right, by the adapter's token for index
/// `first` plus the marker's own index; all other characters are kept. The
/// pass reads the whole text, so marker-shaped text inside raw fragments or
/// column names is replaced as well.
pub open spec fn substitute(s: Seq<char>, count: nat, first: nat, a: SqlAdapter) -> Seq<char>
    decreases s.len(),
{
    if s.len() == 0 {
        Seq::empty()
    } else if marker_at(s, count) {
        placeholder_token(a, first + marker_value(s) as nat) + substitute(s.skip(5), count, first, a)
    } else {
        seq![s[0]] + substitute(s.skip(1), count, first, a)
    }
}

/// The largest number of implicit placeholders that one context holds.
pub const MAX_PLACEHOLDERS: u8 = 255;

/// `ctx` is well formed and has room for the placeholders of `vals`.
pub open spec fn fits(ctx: SqlContext, vals: Seq<SqlValue>) -> bool {
    &&& ctx.wf()
    &&& ctx.implicit() + vals.len() <= MAX_PLACEHOLDERS as nat
}

/// `after` is `before` once `vals` were bound, in order, and nothing else
/// changed.
pub open spec fn rendered(before: SqlContext, after: SqlContext, vals: Seq<SqlValue>) -> bool {
    &&& after.wf()
    &&& after.values() == before.values() + vals
    &&& after.implicit() == before.implicit() + vals.len()
    &&& after.explicit() == before.explicit()
    &&& after.adapter_spec() == before.adapter_spec()
}

/// Something that renders itself into SQL text, binding its values through
/// a context.
pub trait ToSql {
    /// The text rendered when the first value bound takes the implicit
    /// placeholder `start`.
    spec fn sql_text(&self, start: nat) -> Seq<char>;

    /// The values bound while rendering, in order.
    spec fn bound_values(&self) -> Seq<SqlValue>;

    fn to_sql(&self, ctx: &mut SqlContext) -> (r: String)
        requires
            fits(*old(ctx), self.bound_values()),
        ensures
            r@ == self.sql_text(old(ctx).implicit()),
            rendered(*old(ctx), *final(ctx), self.bound_values()),
    ;
}

/// Something rendered as a whole statement: the markers are replaced by the
/// adapter's tokens and the terminator is appended.
pub trait QueryToSql: ToSql {
    fn to_final_sql(&self, ctx: &mut SqlContext) -> (r: String)
        requires
            fits(*old(ctx), self.bound_values()),
        ensures
            rendered(*old(ctx), *final(ctx), self.bound_values()),
            r@ == substitute(
                self.sql_text(old(ctx).implicit()),
                final(ctx).implicit(),
                final(ctx).explicit() + 1,
                final(ctx).adapter_spec(),
            ) + ";"@,
    {
        let body = self.to_sql(ctx);
        ctx.finalize(body.as_str())
    }
}

/// The accumulator of one render pass: how many implicit placeholders were
/// emitted, the highest explicit index that the caller declared, the bound
/// values in emission order, and the active adapter.
#[derive(Debug)]
pub struct SqlContext {
    impl_placeholders: u8,
    expl_placeholders: u8,
    placeholder_data: Vec<SqlValue>,
    adapter: SqlAdapter,
}

impl SqlContext {
    /// The count of implicit placeholders agrees with the bound values.
    pub closed spec fn wf(&self) -> bool {
        self.impl_placeholders as nat == self.placeholder_data@.len()
    }

    /// The bound values, in the order of their placeholders.
    pub closed spec fn values(&self) -> Seq<SqlValue> {
        self.placeholder_data@
    }

    /// The number of implicit placeholders emitted so far.
    pub closed spec fn implicit(&self) -> nat {
        self.impl_placeholders as nat
    }

    /// The highest explicit placeholder index declared so far.
    pub closed spec fn explicit(&self) -> nat {
        self.expl_placeholders as nat
    }

    /// The active adapter.
    pub closed spec fn adapter_spec(&self) -> SqlAdapter {
        self.adapter
    }

    /// A fresh context for one render pass under `adapter`.
    pub fn new(adapter: SqlAdapter) -> (r: SqlContext)
        ensures
            r.wf(),
            r.implicit() == 0,
            r.explicit() == 0,
            r.values() == Seq::<SqlValue>::empty(),
            r.adapter_spec() == adapter,
    {
        SqlContext {
            impl_placeholders: 0u8,
            expl_placeholders: 0u8,
            placeholder_data: Vec::new(),
            adapter: adapter,
        }
    }

    /// Binds `val` to the next implicit placeholder and returns its marker.
    pub fn hold(&mut self, val: SqlValue) -> (r: String)
        requires
            old(self).wf(),
            old(self).implicit() < MAX_PLACEHOLDERS,
        ensures
            final(self).wf(),
            r@ == marker(old(self).implicit()),
            final(self).implicit() == old(self).implicit() + 1,
            final(self).values() == old(self).values().push(val),
            final(self).explicit() == old(self).explicit(),
            final(self).adapter_spec() == old(self).adapter_spec(),
    {
        self.placeholder_data.push(val);
        let i = self.impl_placeholders as u32;
        let mut res = String::from_str("$$");
        proof {
            reveal_strlit("$$");
        }
        crate::adapter::push_digit(&mut res, i / 100);
        crate::adapter::push_digit(&mut res, (i / 10) % 10);
        crate::adapter::push_digit(&mut res, i % 10);
        self.impl_placeholders = self.impl_placeholders + 1;
        assert(res@ =~= marker(i as nat));
        res
    }

    /// The number of implicit placeholders emitted so far.
    pub fn get_impl_placeholders_count(&self) -> (r: u8)
        ensures
            r as nat == self.implicit(),
            self.wf() ==> r as nat == self.values().len(),
    {
        self.impl_placeholders
    }

    /// The highest explicit placeholder index declared so far.
    pub fn get_expl_placeholders_count(&self) -> (r: u8)
        ensures
            r as nat == self.explicit(),
    {
        self.expl_placeholders
    }

    /// The active adapter.
    pub fn adapter(&self) -> (r: &SqlAdapter)
        ensures
            *r == self.adapter_spec(),
    {
        &self.adapter
    }

    /// Records that the caller used the explicit placeholder index `idx`.
    pub fn expl_indexed_placeholder(&mut self, idx: u8)
        ensures
            final(self).explicit() == if idx as nat > old(self).explicit() {
                idx as nat
            } else {
                old(self).explicit()
            },
            final(self).implicit() == old(self).implicit(),
            final(self).values() == old(self).values(),
            final(self).adapter_spec() == old(self).adapter_spec(),
            old(self).wf() ==> final(self).wf(),
    {
        if idx > self.expl_placeholders {
            self.expl_placeholders = idx;
        }
    }

    /// The bound values, in the order of their placeholders.
    pub fn data(&self) -> (r: &[SqlValue])
        ensures
            r@ == self.values(),
    {
        self.placeholder_data.as_slice()
    }
    /// The final text of `body`: each marker of an implicit placeholder is
    /// replaced by the adapter's token, implicit indices following the
    /// highest explicit one, and the statement terminator is appended.
    pub fn finalize(&self, body: &str) -> (r: String)
        ensures
            r@ == substitute(body@, self.implicit(), self.explicit() + 1, self.adapter_spec()) + ";"@,
    {
        let ghost s = body@;
        let ghost count = self.implicit();
        let ghost first = self.explicit() + 1;
        let n = body.unicode_len();
        let first_idx: u32 = self.expl_placeholders as u32 + 1;
        let mut out = String::new();
        let mut run: usize = 0;
        let mut i: usize = 0;
        assert(s.skip(0) =~= s);
        assert(out@ + s.subrange(0, 0) + substitute(s, count, first, self.adapter_spec())
            =~= substitute(s, count, first, self.adapter_spec()));
        while i < n
            invariant
                n == s.len(),
                s == body@,
                count == self.implicit(),
                first == self.explicit() + 1,
                first_idx as nat == first,
                run <= i <= n,
                out@ + s.subrange(run as int, i as int) + substitute(s.skip(i as int), count, first, self.adapter_spec())
                    == substitute(s, count, first, self.adapter_spec()),
            decreases n - i,
        {
            let ghost a = self.adapter_spec();
            let ghost rest = s.skip(i as int);
            match marker_index_at(body, n, i, self.impl_placeholders) {
                Some(v) => {
                    out.append(body.substring_char(run, i));
                    let tok = self.adapter.placeholder(first_idx + v);
                    out.append(tok.as_str());
                    assert(rest.skip(5) =~= s.skip(i + 5));
                    i = i + 5;
                    run = i;
                    assert(out@ + s.subrange(run as int, i as int) + substitute(s.skip(i as int), count, first, a)
                        =~= substitute(s, count, first, a));
                },
                None => {
                    assert(rest.skip(1) =~= s.skip(i + 1));
                    assert(s.subrange(run as int, i as int) + seq![s[i as int]] =~= s.subrange(run as int, i + 1));
                    i = i + 1;
                    assert(out@ + s.subrange(run as int, i as int) + substitute(s.skip(i as int), count, first, a)
                        =~= substitute(s, count, first, a));
                },
            }
        }
        out.append(body.substring_char(run, n));
        out.append(";");
        assert(s.skip(n as int).len() == 0);
        out
    }
}

/// The index that the marker at position `i` of `s` encodes, if a marker of
/// an implicit placeholder below `count` starts there.
fn marker_index_at(s: &str, n: usize, i: usize, count: u8) -> (r: Option<u32>)
    requires
        n == s@.len(),
        i < n,
    ensures
        r is Some <==> marker_at(s@.skip(i as int), count as nat),
        r is Some ==> r->0 as int == marker_value(s@.skip(i as int)),
{
    if n - i < 5 {
        return None;
    }
    let c0 = s.get_char(i);
    let c1 = s.get_char(i + 1);
    if c0 != '$' || c1 != '$' {
        return None;
    }
    let c2 = s.get_char(i + 2);
    let c3 = s.get_char(i + 3);
    let c4 = s.get_char(i + 4);
    if !('0' <= c2 && c2 <= '9' && '0' <= c3 && c3 <= '9' && '0' <= c4 && c4 <= '9') {
        return None;
    }
    let v: u32 = (c2 as u32 - '0' as u32) * 100 + (c3 as u32 - '0' as u32) * 10 + (c4 as u32 - '0' as u32);
    if v < count as u32 {
        Some(v)
    } else {
        None
    }
}

} // verus!
