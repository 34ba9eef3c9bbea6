//! Text building blocks for the rendered page: decimal formatting and
//! the sanitization of identifiers.
//!
//! The exposition format keeps metric names and label values to a tame
//! alphabet, so display names are normalized before they are embedded:
//! hyphens and opening parentheses become underscores, spaces and
//! closing parentheses are dropped, and accented `e` variants lose
//! their accent. Application identifiers only trade hyphens for
//! underscores.

use vstd::prelude::*;
use vstd::string::StrSliceExecFns;
use vstd::string::StringExecFns;

verus! {

/// The character standing for the decimal digit `d`.
pub open spec fn digit_char(d: int) -> char {
    if d == 0 {
        '0'
    } else if d == 1 {
        '1'
    } else if d == 2 {
        '2'
    } else if d == 3 {
        '3'
    } else if d == 4 {
        '4'
    } else if d == 5 {
        '5'
    } else if d == 6 {
        '6'
    } else if d == 7 {
        '7'
    } else if d == 8 {
        '8'
    } else {
        '9'
    }
}

/// The usual decimal rendering of `n`, most significant digit first,
/// with no sign and no leading zero except for `n == 0` itself.
pub open spec fn spec_decimal(n: nat) -> Seq<char>
    decreases n,
{
    if n < 10 {
        seq![digit_char(n as int)]
    } else {
        spec_decimal(n / 10) + seq![digit_char((n % 10) as int)]
    }
}

fn append_digit(out: &mut String, d: u64)
    requires
        d < 10,
    ensures
        final(out)@ == old(out)@ + seq![digit_char(d as int)],
{
    let s: &str = if d == 0 {
        "0"
    } else if d == 1 {
        "1"
    } else if d == 2 {
        "2"
    } else if d == 3 {
        "3"
    } else if d == 4 {
        "4"
    } else if d == 5 {
        "5"
    } else if d == 6 {
        "6"
    } else if d == 7 {
        "7"
    } else if d == 8 {
        "8"
    } else {
        "9"
    };
    proof {
        reveal_strlit("0");
        reveal_strlit("1");
        reveal_strlit("2");
        reveal_strlit("3");
        reveal_strlit("4");
        reveal_strlit("5");
        reveal_strlit("6");
        reveal_strlit("7");
        reveal_strlit("8");
        reveal_strlit("9");
        assert(s@ =~= seq![digit_char(d as int)]);
    }
    out.append(s);
}

/// Appends the decimal rendering of `n` to `out`.
pub fn append_decimal(out: &mut String, n: u64)
    ensures
        final(out)@ == old(out)@ + spec_decimal(n as nat),
    decreases n,
{
    if n >= 10 {
        append_decimal(out, n / 10);
        append_digit(out, n % 10);
        proof {
            assert(final(out)@ == old(out)@ + spec_decimal(n as nat / 10) + seq![
                digit_char((n as nat % 10) as int),
            ]);
            assert(old(out)@ + spec_decimal(n as nat / 10) + seq![digit_char((n as nat % 10) as int)]
                =~= old(out)@ + spec_decimal(n as nat));
        }
    } else {
        append_digit(out, n);
    }
}

/// What becomes of one character of a display name.
pub open spec fn sanitize_char(c: char) -> Seq<char> {
    if c == '-' || c == '(' {
        seq!['_']
    } else if c == ' ' || c == ')' {
        seq![]
    } else if c == 'é' || c == 'ê' || c == 'è' || c == 'ë' {
        seq!['e']
    } else {
        seq![c]
    }
}

/// A display name, normalized character by character for use in metric
/// names and label values.
pub open spec fn spec_sanitize_label(s: Seq<char>) -> Seq<char>
    decreases s.len(),
{
    if s.len() == 0 {
        Seq::empty()
    } else {
        spec_sanitize_label(s.drop_last()) + sanitize_char(s.last())
    }
}

/// What becomes of one character of an application identifier.
pub open spec fn id_char(c: char) -> char {
    if c == '-' {
        '_'
    } else {
        c
    }
}

/// An application identifier with every hyphen traded for an
/// underscore, the only normalization it needs.
pub open spec fn spec_sanitize_id(s: Seq<char>) -> Seq<char>
    decreases s.len(),
{
    if s.len() == 0 {
        Seq::empty()
    } else {
        spec_sanitize_id(s.drop_last()) + seq![id_char(s.last())]
    }
}

/// Normalizes a display name for embedding in the rendered page.
pub fn sanitize_label(s: &str) -> (r: String)
    ensures
        r@ == spec_sanitize_label(s@),
{
    let len: usize = s.unicode_len();
    let mut out = String::new();
    let mut i: usize = 0;
    while i < len
        invariant
            i <= len,
            len == s@.len(),
            out@ == spec_sanitize_label(s@.take(i as int)),
        decreases len - i,
    {
        let c = s.get_char(i);
        let ghost before = out@;
        if c == '-' || c == '(' {
            out.append("_");
            proof {
                reveal_strlit("_");
                assert(out@ =~= before + sanitize_char(c));
            }
        } else if c == ' ' || c == ')' {
            proof {
                assert(out@ =~= before + sanitize_char(c));
            }
        } else if c == 'é' || c == 'ê' || c == 'è' || c == 'ë' {
            out.append("e");
            proof {
                reveal_strlit("e");
                assert(out@ =~= before + sanitize_char(c));
            }
        } else {
            let piece = s.substring_char(i, i + 1);
            proof {
                assert(piece@ =~= seq![c]);
            }
            out.append(piece);
            proof {
                assert(out@ =~= before + sanitize_char(c));
            }
        }
        proof {
            assert(s@.take(i + 1 as int).drop_last() =~= s@.take(i as int));
            assert(s@.take(i + 1 as int).last() == c);
        }
        i = i + 1;
    }
    proof {
        assert(s@.take(len as int) =~= s@);
    }
    out
}

/// Normalizes an application identifier.
pub fn sanitize_id(s: &str) -> (r: String)
    ensures
        r@ == spec_sanitize_id(s@),
{
    let len: usize = s.unicode_len();
    let mut out = String::new();
    let mut i: usize = 0;
    while i < len
        invariant
            i <= len,
            len == s@.len(),
            out@ == spec_sanitize_id(s@.take(i as int)),
        decreases len - i,
    {
        let c = s.get_char(i);
        let ghost before = out@;
        if c == '-' {
            out.append("_");
            proof {
                reveal_strlit("_");
                assert(out@ =~= before + seq![id_char(c)]);
            }
        } else {
            let piece = s.substring_char(i, i + 1);
            proof {
                assert(piece@ =~= seq![c]);
            }
            out.append(piece);
            proof {
                assert(out@ =~= before + seq![id_char(c)]);
            }
        }
        proof {
            assert(s@.take(i + 1 as int).drop_last() =~= s@.take(i as int));
            assert(s@.take(i + 1 as int).last() == c);
        }
        i = i + 1;
    }
    proof {
        assert(s@.take(len as int) =~= s@);
    }
    out
}

} // verus!
