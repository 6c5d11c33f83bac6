//! Decimal rendering of integers.
//!
//! The proxy echoes submitted enclosure values back as text, renders device
//! status codes into error messages, and appends a cache-busting timestamp
//! to device URLs; all of that needs an exact, verified integer-to-string
//! conversion.

use vstd::prelude::*;

verus! {

/// The character for one decimal digit.
pub open spec fn digit_char(d: int) -> char {
    if d == 0 {
        '0'
    } else if d == 1 {
        '1'
    } else if d == 2 {
        '2'
    } else if d == 3 {
        '3'
    } else if d == 4 {
        '4'
    } else if d == 5 {
        '5'
    } else if d == 6 {
        '6'
    } else if d == 7 {
        '7'
    } else if d == 8 {
        '8'
    } else {
        '9'
    }
}

/// Decimal representation of a natural number, most significant digit first,
/// with no leading zeros (a single `'0'` for zero).
pub open spec fn dec_digits(n: nat) -> Seq<char>
    decreases n,
{
    if n < 10 {
        seq![digit_char(n as int)]
    } else {
        dec_digits(n / 10) + seq![digit_char((n % 10) as int)]
    }
}

/// Decimal representation of a signed value: the magnitude's digits,
/// preceded by a minus sign when the value is negative.
pub open spec fn dec_digits_signed(n: int) -> Seq<char> {
    if n < 0 {
        seq!['-'] + dec_digits((-n) as nat)
    } else {
        dec_digits(n as nat)
    }
}

proof fn lemma_dec_digits_len(n: nat)
    ensures
        dec_digits(n).len() >= 1,
        n >= 10 ==> dec_digits(n).len() >= 2,
    decreases n,
{
    if n >= 10 {
        lemma_dec_digits_len(n / 10);
    }
}

/// Law: two values with the same decimal text are the same value, so a body
/// that carries `dec_digits(v)` names `v` and no other value.
pub proof fn lemma_dec_digits_injective(a: nat, b: nat)
    ensures
        dec_digits(a) == dec_digits(b) ==> a == b,
    decreases a + b,
{
    lemma_dec_digits_len(a);
    lemma_dec_digits_len(b);
    if dec_digits(a) == dec_digits(b) {
        if a < 10 && b < 10 {
            assert(dec_digits(a)[0] == dec_digits(b)[0]);
            assert(digit_char(a as int) == digit_char(b as int));
        } else if a >= 10 && b >= 10 {
            assert(dec_digits(a).last() == dec_digits(b).last());
            assert(digit_char((a % 10) as int) == digit_char((b % 10) as int));
            assert(a % 10 == b % 10);
            assert(dec_digits(a).drop_last() =~= dec_digits(a / 10));
            assert(dec_digits(b).drop_last() =~= dec_digits(b / 10));
            lemma_dec_digits_injective(a / 10, b / 10);
            assert(a == 10 * (a / 10) + a % 10);
            assert(b == 10 * (b / 10) + b % 10);
        }
    }
}

fn push_digit(d: u64, out: &mut String)
    requires
        d < 10,
    ensures
        final(out)@ == old(out)@ + seq![digit_char(d as int)],
{
    let s: &str = if d == 0 {
        "0"
    } else if d == 1 {
        "1"
    } else if d == 2 {
        "2"
    } else if d == 3 {
        "3"
    } else if d == 4 {
        "4"
    } else if d == 5 {
        "5"
    } else if d == 6 {
        "6"
    } else if d == 7 {
        "7"
    } else if d == 8 {
        "8"
    } else {
        "9"
    };
    proof {
        reveal_strlit("0");
        reveal_strlit("1");
        reveal_strlit("2");
        reveal_strlit("3");
        reveal_strlit("4");
        reveal_strlit("5");
        reveal_strlit("6");
        reveal_strlit("7");
        reveal_strlit("8");
        reveal_strlit("9");
        assert(s@ =~= seq![digit_char(d as int)]);
    }
    out.append(s);
}

fn push_u64_decimal(n: u64, out: &mut String)
    ensures
        final(out)@ == old(out)@ + dec_digits(n as nat),
    decreases n,
{
    if n >= 10 {
        push_u64_decimal(n / 10, out);
    }
    push_digit(n % 10, out);
    proof {
        assert(final(out)@ =~= old(out)@ + dec_digits(n as nat));
    }
}

/// The decimal text of an unsigned value, exactly the digits of `n`.
pub fn u64_to_decimal(n: u64) -> (r: String)
    ensures
        r@ == dec_digits(n as nat),
{
    let mut out = String::new();
    push_u64_decimal(n, &mut out);
    proof {
        assert(out@ =~= dec_digits(n as nat));
    }
    out
}

/// The decimal text of an unsigned byte, exactly the digits of `n`.
pub fn u8_to_decimal(n: u8) -> (r: String)
    ensures
        r@ == dec_digits(n as nat),
{
    u64_to_decimal(n as u64)
}

/// The decimal text of a signed value: a minus sign, then the magnitude's
/// digits, when negative.
pub fn i64_to_decimal(n: i64) -> (r: String)
    ensures
        r@ == dec_digits_signed(n as int),
{
    if n >= 0 {
        u64_to_decimal(n as u64)
    } else {
        let mut out = String::from_str("-");
        proof {
            reveal_strlit("-");
            assert(out@ =~= seq!['-']);
        }
        let wide: i128 = n as i128;
        let mag: u64 = (-wide) as u64;
        push_u64_decimal(mag, &mut out);
        proof {
            assert(out@ =~= dec_digits_signed(n as int));
        }
        out
    }
}

} // verus!
