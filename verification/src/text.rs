//! Building the texts that the library hands out.

use vstd::prelude::*;
use vstd::string::*;

verus! {

/// The texts of `parts` one after the other, with `separator` between each two.
pub open spec fn joined(parts: Seq<Seq<char>>, separator: Seq<char>) -> Seq<char>
    decreases parts.len(),
{
    if parts.len() == 0 {
        Seq::empty()
    } else if parts.len() == 1 {
        parts[0]
    } else {
        joined(parts.drop_last(), separator) + separator + parts.last()
    }
}

/// The views of a sequence of strings, in the same order.
pub open spec fn string_views(s: Seq<String>) -> Seq<Seq<char>> {
    Seq::new(s.len(), |i: int| s[i]@)
}

/// Joins `parts` with `separator` between each two.
pub fn join(parts: &Vec<String>, separator: &str) -> (r: String)
    ensures
        r@ == joined(string_views(parts@), separator@),
{
    let mut out = String::new();
    let mut i: usize = 0;
    while i < parts.len()
        invariant
            i <= parts.len(),
            out@ == joined(string_views(parts@).take(i as int), separator@),
        decreases parts.len() - i,
    {
        proof {
            let all = string_views(parts@);
            assert(all.take(i + 1).drop_last() =~= all.take(i as int));
        }
        if i > 0 {
            out.append(separator);
        }
        out.append(parts[i].as_str());
        i = i + 1;
    }
    proof {
        let all = string_views(parts@);
        assert(all.take(parts.len() as int) =~= all);
    }
    out
}

/// The texts of `parts`, joined with a comma and a blank, in square brackets.
pub open spec fn listed(parts: Seq<Seq<char>>) -> Seq<char> {
    "["@ + joined(parts, ", "@) + "]"@
}

/// Writes `parts` as a list: joined with a comma and a blank, in square brackets.
pub fn list(parts: &Vec<String>) -> (r: String)
    ensures
        r@ == listed(string_views(parts@)),
{
    let mut out = String::from_str("[");
    let inner = join(parts, ", ");
    out.append(inner.as_str());
    out.append("]");
    out
}

/// The character of the decimal digit `d`.
pub open spec fn digit(d: nat) -> char {
    if d == 0 {
        '0'
    } else if d == 1 {
        '1'
    } else if d == 2 {
        '2'
    } else if d == 3 {
        '3'
    } else if d == 4 {
        '4'
    } else if d == 5 {
        '5'
    } else if d == 6 {
        '6'
    } else if d == 7 {
        '7'
    } else if d == 8 {
        '8'
    } else {
        '9'
    }
}

/// The number `n` in decimal digits, without leading zeros.
pub open spec fn decimal(n: nat) -> Seq<char>
    decreases n,
{
    if n < 10 {
        seq![digit(n)]
    } else {
        decimal(n / 10).push(digit(n % 10))
    }
}

/// The whole number `n` in decimal digits, with a minus sign before it if it is negative.
pub open spec fn signed_decimal(n: int) -> Seq<char> {
    if n < 0 {
        seq!['-'] + decimal((-n) as nat)
    } else {
        decimal(n as nat)
    }
}

fn digit_text(d: u64) -> (r: &'static str)
    requires
        d < 10,
    ensures
        r@ == seq![digit(d as nat)],
{
    proof {
        reveal_strlit("0");
        reveal_strlit("1");
        reveal_strlit("2");
        reveal_strlit("3");
        reveal_strlit("4");
        reveal_strlit("5");
        reveal_strlit("6");
        reveal_strlit("7");
        reveal_strlit("8");
        reveal_strlit("9");
    }
    let r = if d == 0 {
        "0"
    } else if d == 1 {
        "1"
    } else if d == 2 {
        "2"
    } else if d == 3 {
        "3"
    } else if d == 4 {
        "4"
    } else if d == 5 {
        "5"
    } else if d == 6 {
        "6"
    } else if d == 7 {
        "7"
    } else if d == 8 {
        "8"
    } else {
        "9"
    };
    assert(r@ =~= seq![digit(d as nat)]);
    r
}

/// Appends the number `n` in decimal digits to `out`.
pub fn append_decimal(out: &mut String, n: u64)
    ensures
        final(out)@ == old(out)@ + decimal(n as nat),
    decreases n,
{
    if n >= 10 {
        append_decimal(out, n / 10);
    }
    out.append(digit_text(n % 10));
    proof {
        assert(out@ =~= old(out)@ + decimal(n as nat));
    }
}

/// Appends the whole number `n` in decimal digits to `out`, with a minus sign before it
/// if it is negative.
pub fn append_signed_decimal(out: &mut String, n: i64)
    ensures
        final(out)@ == old(out)@ + signed_decimal(n as int),
{
    if n < 0 {
        proof {
            reveal_strlit("-");
        }
        out.append("-");
        let magnitude: u64 = ((-(n + 1)) as u64) + 1;
        append_decimal(out, magnitude);
        proof {
            assert("-"@ =~= seq!['-']);
            assert(out@ =~= old(out)@ + signed_decimal(n as int));
        }
    } else {
        append_decimal(out, n as u64);
    }
}

} // verus!
