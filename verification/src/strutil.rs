//! Character-level string helpers used by the decoders and request
//! builders: equality, decimal rendering, and JSON string escaping.

use vstd::prelude::*;
use vstd::string::*;

verus! {

/// Character-by-character equality of two string slices.
pub fn str_eq(a: &str, b: &str) -> (r: bool)
    ensures
        r == (a@ == b@),
{
    let alen = a.unicode_len();
    let blen = b.unicode_len();
    if alen != blen {
        return false;
    }
    let mut i: usize = 0;
    while i < alen
        invariant
            i <= alen,
            alen == a@.len(),
            alen == b@.len(),
            forall|j: int| 0 <= j < i ==> a@[j] == b@[j],
        decreases alen - i,
    {
        if a.get_char(i) != b.get_char(i) {
            return false;
        }
        i = i + 1;
    }
    proof {
        assert(a@ =~= b@);
    }
    true
}

/// The character for one decimal digit.
pub open spec fn digit_char(d: nat) -> char {
    if d == 0 {
        '0'
    } else if d == 1 {
        '1'
    } else if d == 2 {
        '2'
    } else if d == 3 {
        '3'
    } else if d == 4 {
        '4'
    } else if d == 5 {
        '5'
    } else if d == 6 {
        '6'
    } else if d == 7 {
        '7'
    } else if d == 8 {
        '8'
    } else {
        '9'
    }
}

/// The decimal rendering of `n`, without sign or padding.
pub open spec fn spec_udigits(n: nat) -> Seq<char>
    decreases n,
{
    if n < 10 {
        seq![digit_char(n)]
    } else {
        spec_udigits(n / 10).push(digit_char(n % 10))
    }
}

fn digit_str(d: u32) -> (r: &'static str)
    requires
        d < 10,
    ensures
        r@ =~= seq![digit_char(d as nat)],
{
    let r: &'static str = if d == 0 {
        "0"
    } else if d == 1 {
        "1"
    } else if d == 2 {
        "2"
    } else if d == 3 {
        "3"
    } else if d == 4 {
        "4"
    } else if d == 5 {
        "5"
    } else if d == 6 {
        "6"
    } else if d == 7 {
        "7"
    } else if d == 8 {
        "8"
    } else {
        "9"
    };
    proof {
        reveal_strlit("0");
        reveal_strlit("1");
        reveal_strlit("2");
        reveal_strlit("3");
        reveal_strlit("4");
        reveal_strlit("5");
        reveal_strlit("6");
        reveal_strlit("7");
        reveal_strlit("8");
        reveal_strlit("9");
    }
    r
}

/// Appends the decimal rendering of `n` to `out`.
pub fn push_u32_digits(n: u32, out: &mut String)
    ensures
        final(out)@ == old(out)@ + spec_udigits(n as nat),
    decreases n,
{
    if n >= 10 {
        push_u32_digits(n / 10, out);
    }
    out.append(digit_str(n % 10));
    proof {
        if n >= 10 {
            assert(spec_udigits(n as nat) =~= spec_udigits((n / 10) as nat) + seq![
                digit_char((n % 10) as nat),
            ]);
            assert(out@ =~= old(out)@ + spec_udigits(n as nat));
        } else {
            assert(out@ =~= old(out)@ + spec_udigits(n as nat));
        }
    }
}

/// How one character is written inside a JSON string literal: quotes,
/// backslashes and the common control characters are escaped, every other
/// character stands as itself.
pub open spec fn esc_char(c: char) -> Seq<char> {
    if c == '"' {
        seq!['\\', '"']
    } else if c == '\\' {
        seq!['\\', '\\']
    } else if c == '\n' {
        seq!['\\', 'n']
    } else if c == '\r' {
        seq!['\\', 'r']
    } else if c == '\t' {
        seq!['\\', 't']
    } else {
        seq![c]
    }
}

/// The body of a JSON string literal holding `s`.
pub open spec fn spec_escaped(s: Seq<char>) -> Seq<char>
    decreases s.len(),
{
    if s.len() == 0 {
        Seq::empty()
    } else {
        spec_escaped(s.drop_last()) + esc_char(s.last())
    }
}

/// Appends the body of a JSON string literal holding `s` to `out`.
#[verifier::loop_isolation(false)]
pub fn push_escaped(s: &str, out: &mut String)
    ensures
        final(out)@ == old(out)@ + spec_escaped(s@),
{
    let n = s.unicode_len();
    let mut i: usize = 0;
    proof {
        assert(out@ =~= old(out)@ + spec_escaped(s@.take(0)));
    }
    while i < n
        invariant
            i <= n,
            out@ == old(out)@ + spec_escaped(s@.take(i as int)),
        decreases n - i,
    {
        let c = s.get_char(i);
        if c == '"' {
            out.append("\\\"");
            proof {
                reveal_strlit("\\\"");
            }
        } else if c == '\\' {
            out.append("\\\\");
            proof {
                reveal_strlit("\\\\");
            }
        } else if c == '\n' {
            out.append("\\n");
            proof {
                reveal_strlit("\\n");
            }
        } else if c == '\r' {
            out.append("\\r");
            proof {
                reveal_strlit("\\r");
            }
        } else if c == '\t' {
            out.append("\\t");
            proof {
                reveal_strlit("\\t");
            }
        } else {
            let piece = s.substring_char(i, i + 1);
            out.append(piece);
        }
        proof {
            assert(s@.take(i + 1).drop_last() =~= s@.take(i as int));
            assert(s@.take(i + 1).last() == s@[i as int]);
            assert(out@ =~= old(out)@ + spec_escaped(s@.take(i + 1)));
        }
        i = i + 1;
    }
    proof {
        assert(s@.take(n as int) =~= s@);
    }
}

/// A JSON string literal holding `s`.
pub open spec fn spec_quoted(s: Seq<char>) -> Seq<char> {
    seq!['"'] + spec_escaped(s) + seq!['"']
}

/// Appends a JSON string literal holding `s` to `out`.
pub fn push_quoted(s: &str, out: &mut String)
    ensures
        final(out)@ == old(out)@ + spec_quoted(s@),
{
    out.append("\"");
    push_escaped(s, out);
    out.append("\"");
    proof {
        reveal_strlit("\"");
        assert("\""@ =~= seq!['"']);
        assert(out@ =~= old(out)@ + spec_quoted(s@));
    }
}

/// The comma-separated JSON string literals for `items`.
pub open spec fn spec_string_list(items: Seq<Seq<char>>) -> Seq<char>
    decreases items.len(),
{
    if items.len() == 0 {
        Seq::empty()
    } else if items.len() == 1 {
        spec_quoted(items[0])
    } else {
        spec_string_list(items.drop_last()) + seq![','] + spec_quoted(items.last())
    }
}

/// Appends the comma-separated JSON string literals for `items` to `out`.
#[verifier::loop_isolation(false)]
pub fn push_string_list(items: &Vec<String>, out: &mut String)
    ensures
        final(out)@ == old(out)@ + spec_string_list(items.deep_view()),
{
    let n = items.len();
    let mut i: usize = 0;
    proof {
        assert(items.deep_view().take(0) =~= Seq::<Seq<char>>::empty());
    }
    while i < n
        invariant
            i <= n,
            out@ == old(out)@ + spec_string_list(items.deep_view().take(i as int)),
        decreases n - i,
    {
        if i > 0 {
            out.append(",");
        }
        push_quoted(items[i].as_str(), out);
        proof {
            reveal_strlit(",");
            let dv = items.deep_view();
            assert(dv.take(i + 1).drop_last() =~= dv.take(i as int));
            assert(dv.take(i + 1).last() == dv[i as int]);
            assert(dv[i as int] == items@[i as int]@);
            assert(out@ =~= old(out)@ + spec_string_list(dv.take(i + 1)));
        }
        i = i + 1;
    }
    proof {
        assert(items.deep_view().take(n as int) =~= items.deep_view());
    }
}

} // verus!
