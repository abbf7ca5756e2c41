use vstd::prelude::*;

verus! {

/// The character of a decimal digit.
pub open spec fn digit_char(d: nat) -> char {
    if d == 0 { '0' }
    else if d == 1 { '1' }
    else if d == 2 { '2' }
    else if d == 3 { '3' }
    else if d == 4 { '4' }
    else if d == 5 { '5' }
    else if d == 6 { '6' }
    else if d == 7 { '7' }
    else if d == 8 { '8' }
    else { '9' }
}

/// The decimal notation of `n`, without leading zeros.
pub open spec fn decimal(n: nat) -> Seq<char>
    decreases n,
{
    if n < 10 {
        seq![digit_char(n)]
    } else {
        decimal(n / 10).push(digit_char(n % 10))
    }
}

/// A database dialect: decides how a placeholder token is written.
#[derive(Clone, Copy, Debug, PartialEq, Eq)]
pub enum SqlAdapter {
    /// Numbered tokens: `$1`, `$2`, ...
    PostgreSql,
    /// A fixed token: `?`.
    Mysql,
}

/// The token that stands for the placeholder of one-based index `idx`.
pub open spec fn placeholder_token(a: SqlAdapter, idx: nat) -> Seq<char> {
    match a {
        SqlAdapter::PostgreSql => seq!['$'] + decimal(idx),
        SqlAdapter::Mysql => seq!['?'],
    }
}

/// Appends the character of digit `d` to `out`.
pub(crate) fn push_digit(out: &mut String, d: u32)
    requires
        d < 10,
    ensures
        final(out)@ == old(out)@.push(digit_char(d as nat)),
{
    proof {
        reveal_strlit("0");
        reveal_strlit("1");
        reveal_strlit("2");
        reveal_strlit("3");
        reveal_strlit("4");
        reveal_strlit("5");
        reveal_strlit("6");
        reveal_strlit("7");
        reveal_strlit("8");
        reveal_strlit("9");
    }
    let s: &str = if d == 0 { "0" }
    else if d == 1 { "1" }
    else if d == 2 { "2" }
    else if d == 3 { "3" }
    else if d == 4 { "4" }
    else if d == 5 { "5" }
    else if d == 6 { "6" }
    else if d == 7 { "7" }
    else if d == 8 { "8" }
    else { "9" };
    out.append(s);
}

/// Appends the decimal notation of `n` to `out`.
pub(crate) fn push_decimal(out: &mut String, n: u32)
    ensures
        final(out)@ == old(out)@ + decimal(n as nat),
    decreases n,
{
    if n < 10 {
        push_digit(out, n);
        assert(old(out)@.push(digit_char(n as nat)) =~= old(out)@ + decimal(n as nat));
    } else {
        push_decimal(out, n / 10);
        push_digit(out, n % 10);
        assert(out@ =~= old(out)@ + decimal(n as nat));
    }
}

impl SqlAdapter {
    /// The dialect's token for the placeholder of one-based index `idx`.
    pub fn placeholder(&self, idx: u32) -> (r: String)
        ensures
            r@ == placeholder_token(*self, idx as nat),
    {
        proof {
            reveal_strlit("$");
            reveal_strlit("?");
        }
        match self {
            SqlAdapter::PostgreSql => {
                let mut out = String::from_str("$");
                push_decimal(&mut out, idx);
                out
            },
            SqlAdapter::Mysql => String::from_str("?"),
        }
    }
}

} // verus!
