//! Character-level building blocks: decimal digit strings, two-digit
//! zero-padding, signed numbers and repeated marker characters.

use vstd::prelude::*;
use vstd::string::StringExecFns;

verus! {

/// The decimal digit character for a single digit value.
pub open spec fn spec_digit(d: nat) -> char {
    if d == 0 {
        '0'
    } else if d == 1 {
        '1'
    } else if d == 2 {
        '2'
    } else if d == 3 {
        '3'
    } else if d == 4 {
        '4'
    } else if d == 5 {
        '5'
    } else if d == 6 {
        '6'
    } else if d == 7 {
        '7'
    } else if d == 8 {
        '8'
    } else {
        '9'
    }
}

/// The decimal digits of `n`, most significant first, without sign or padding.
pub open spec fn spec_decimal(n: nat) -> Seq<char>
    decreases n,
{
    if n < 10 {
        seq![spec_digit(n)]
    } else {
        spec_decimal(n / 10).push(spec_digit(n % 10))
    }
}

/// `n` rendered to at least two characters: a single digit gets a leading
/// zero, anything wider keeps all of its digits.
pub open spec fn spec_padded2(n: nat) -> Seq<char> {
    if n < 10 {
        seq!['0', spec_digit(n)]
    } else {
        spec_decimal(n)
    }
}

/// A signed decimal rendering: a leading minus sign for negative values.
pub open spec fn spec_signed(n: int) -> Seq<char> {
    if n < 0 {
        seq!['-'] + spec_decimal((-n) as nat)
    } else {
        spec_decimal(n as nat)
    }
}

/// `n` copies of the character `c`.
pub open spec fn spec_repeat(c: char, n: nat) -> Seq<char> {
    Seq::new(n, |i: int| c)
}

/// The one-character string for a single digit value.
fn digit_str(d: u32) -> (r: &'static str)
    requires
        d < 10,
    ensures
        r@ == seq![spec_digit(d as nat)],
{
    proof {
        reveal_strlit("0");
        reveal_strlit("1");
        reveal_strlit("2");
        reveal_strlit("3");
        reveal_strlit("4");
        reveal_strlit("5");
        reveal_strlit("6");
        reveal_strlit("7");
        reveal_strlit("8");
        reveal_strlit("9");
    }
    let r = match d {
        0 => "0",
        1 => "1",
        2 => "2",
        3 => "3",
        4 => "4",
        5 => "5",
        6 => "6",
        7 => "7",
        8 => "8",
        _ => "9",
    };
    proof {
        assert(r@ =~= seq![spec_digit(d as nat)]);
    }
    r
}

/// Appends the decimal digits of `n` to `out`.
pub fn push_decimal_u32(out: &mut String, n: u32)
    ensures
        final(out)@ == old(out)@ + spec_decimal(n as nat),
    decreases n,
{
    if n >= 10 {
        push_decimal_u32(out, n / 10);
    }
    out.append(digit_str(n % 10));
    proof {
        if n >= 10 {
            assert(final(out)@ =~= old(out)@ + spec_decimal(n as nat));
        } else {
            assert(final(out)@ =~= old(out)@ + spec_decimal(n as nat));
        }
    }
}

/// Appends `n` zero-padded to at least two digits.
pub fn push_padded2(out: &mut String, n: u32)
    ensures
        final(out)@ == old(out)@ + spec_padded2(n as nat),
{
    if n < 10 {
        proof {
            reveal_strlit("0");
        }
        out.append("0");
        out.append(digit_str(n));
        proof {
            assert(final(out)@ =~= old(out)@ + spec_padded2(n as nat));
        }
    } else {
        push_decimal_u32(out, n);
    }
}

/// Appends `n` in signed decimal form.
pub fn push_signed_i32(out: &mut String, n: i32)
    ensures
        final(out)@ == old(out)@ + spec_signed(n as int),
{
    if n < 0 {
        proof {
            reveal_strlit("-");
        }
        out.append("-");
        let wide: i64 = -(n as i64);
        let m: u32 = wide as u32;
        push_decimal_u32(out, m);
        proof {
            assert("-"@ =~= seq!['-']);
            assert(final(out)@ =~= old(out)@ + spec_signed(n as int));
        }
    } else {
        push_decimal_u32(out, n as u32);
    }
}

/// Appends `n` star markers.
pub fn push_stars(out: &mut String, n: usize)
    ensures
        final(out)@ == old(out)@ + spec_repeat('*', n as nat),
{
    proof {
        reveal_strlit("*");
    }
    let mut i: usize = 0;
    while i < n
        invariant
            i <= n,
            out@ == old(out)@ + spec_repeat('*', i as nat),
        decreases n - i,
    {
        out.append("*");
        i = i + 1;
        proof {
            reveal_strlit("*");
            assert("*"@ =~= seq!['*']);
            assert(spec_repeat('*', i as nat) =~= spec_repeat('*', (i - 1) as nat) + seq!['*']);
        }
    }
    proof {
        assert(out@ =~= old(out)@ + spec_repeat('*', n as nat));
    }
}

/// Appends `2 * n` indent spaces.
pub fn push_indent(out: &mut String, n: usize)
    ensures
        final(out)@ == old(out)@ + spec_repeat(' ', 2 * n as nat),
{
    proof {
        reveal_strlit("  ");
    }
    let mut i: usize = 0;
    while i < n
        invariant
            i <= n,
            out@ == old(out)@ + spec_repeat(' ', 2 * i as nat),
        decreases n - i,
    {
        out.append("  ");
        i = i + 1;
        proof {
            reveal_strlit("  ");
            assert("  "@ =~= seq![' ', ' ']);
            assert(spec_repeat(' ', 2 * i as nat) =~= spec_repeat(' ', 2 * (i - 1) as nat)
                + seq![' ', ' ']);
        }
    }
    proof {
        assert(out@ =~= old(out)@ + spec_repeat(' ', 2 * n as nat));
    }
}

} // verus!
