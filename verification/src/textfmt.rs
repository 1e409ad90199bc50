//! Decimal and hexadecimal text of unsigned integers, built character by
//! character so that every produced string is pinned down by a spec-level
//! character sequence.

use vstd::prelude::*;

verus! {

/// The character for one decimal digit value below ten.
pub open spec fn digit_char(d: int) -> char {
    if d == 0 {
        '0'
    } else if d == 1 {
        '1'
    } else if d == 2 {
        '2'
    } else if d == 3 {
        '3'
    } else if d == 4 {
        '4'
    } else if d == 5 {
        '5'
    } else if d == 6 {
        '6'
    } else if d == 7 {
        '7'
    } else if d == 8 {
        '8'
    } else {
        '9'
    }
}

/// The decimal digit sequence of a natural number, most significant digit
/// first, with no leading zeroes (a single '0' for zero).
pub open spec fn dec_digits(n: nat) -> Seq<char>
    decreases n,
{
    if n < 10 {
        seq![digit_char(n as int)]
    } else {
        dec_digits(n / 10).push(digit_char((n % 10) as int))
    }
}

/// Two-digit zero-padded decimal text of a value below one hundred.
pub open spec fn two_dec_digits(n: nat) -> Seq<char> {
    seq![digit_char((n / 10) as int), digit_char((n % 10) as int)]
}

/// Three-digit zero-padded decimal text of a value below one thousand.
pub open spec fn three_dec_digits(n: nat) -> Seq<char> {
    seq![
        digit_char((n / 100) as int),
        digit_char(((n / 10) % 10) as int),
        digit_char((n % 10) as int),
    ]
}

/// Decimal text padded on the left with '0' to a width of at least two.
pub open spec fn min_two_dec_digits(n: nat) -> Seq<char> {
    if n < 10 {
        seq!['0'] + dec_digits(n)
    } else {
        dec_digits(n)
    }
}

/// The decimal text of a signed integer: a leading '-' for negative values,
/// then the digits of the magnitude.
pub open spec fn int_text(v: int) -> Seq<char> {
    if v < 0 {
        seq!['-'] + dec_digits((-v) as nat)
    } else {
        dec_digits(v as nat)
    }
}

/// Appends the decimal text of a signed value, with a leading '-' when it
/// is negative.
pub fn push_signed_dec(s: &mut String, v: i64)
    requires
        v > i64::MIN,
    ensures
        final(s)@ == old(s)@ + int_text(v as int),
{
    if v >= 0 {
        push_dec(s, v as u64);
    } else {
        s.append("-");
        push_dec(s, (-v) as u64);
        proof {
            reveal_strlit("-");
            assert(s@ =~= old(s)@ + int_text(v as int));
        }
    }
}

/// The character for one hexadecimal digit value below sixteen, lower case.
pub open spec fn hex_digit_char(d: int) -> char {
    if d < 10 {
        digit_char(d)
    } else if d == 10 {
        'a'
    } else if d == 11 {
        'b'
    } else if d == 12 {
        'c'
    } else if d == 13 {
        'd'
    } else if d == 14 {
        'e'
    } else {
        'f'
    }
}

/// Two-digit zero-padded lower-case hexadecimal text of a value below 256.
pub open spec fn two_hex_digits(n: nat) -> Seq<char> {
    seq![hex_digit_char((n / 16) as int), hex_digit_char((n % 16) as int)]
}

/// Whether a character is a decimal digit.
pub open spec fn is_dec_digit(c: char) -> bool {
    ('0' as u32) <= (c as u32) && (c as u32) <= ('9' as u32)
}

/// Every character of the decimal text of a natural number is a decimal
/// digit, and the text is never empty.
pub proof fn lemma_dec_digits_shape(n: nat)
    ensures
        dec_digits(n).len() >= 1,
        forall|i: int| 0 <= i < dec_digits(n).len() ==> is_dec_digit(#[trigger] dec_digits(n)[i]),
    decreases n,
{
    if n >= 10 {
        lemma_dec_digits_shape(n / 10);
    }
}

/// Appends the character of one decimal digit value.
pub fn push_digit(s: &mut String, d: u64)
    requires
        d < 10,
    ensures
        final(s)@ == old(s)@ + seq![digit_char(d as int)],
{
    let t: &str = if d == 0 {
        "0"
    } else if d == 1 {
        "1"
    } else if d == 2 {
        "2"
    } else if d == 3 {
        "3"
    } else if d == 4 {
        "4"
    } else if d == 5 {
        "5"
    } else if d == 6 {
        "6"
    } else if d == 7 {
        "7"
    } else if d == 8 {
        "8"
    } else {
        "9"
    };
    proof {
        reveal_strlit("0");
        reveal_strlit("1");
        reveal_strlit("2");
        reveal_strlit("3");
        reveal_strlit("4");
        reveal_strlit("5");
        reveal_strlit("6");
        reveal_strlit("7");
        reveal_strlit("8");
        reveal_strlit("9");
        assert(t@ =~= seq![digit_char(d as int)]);
    }
    s.append(t);
}

/// Appends the full decimal text of a value, most significant digit first.
pub fn push_dec(s: &mut String, n: u64)
    ensures
        final(s)@ == old(s)@ + dec_digits(n as nat),
    decreases n,
{
    if n < 10 {
        push_digit(s, n);
    } else {
        push_dec(s, n / 10);
        push_digit(s, n % 10);
        proof {
            assert(s@ =~= old(s)@ + dec_digits(n as nat));
        }
    }
}

/// Appends the two-digit zero-padded decimal text of a value below 100.
pub fn push_two_dec(s: &mut String, n: u64)
    requires
        n < 100,
    ensures
        final(s)@ == old(s)@ + two_dec_digits(n as nat),
{
    push_digit(s, n / 10);
    push_digit(s, n % 10);
    proof {
        assert(s@ =~= old(s)@ + two_dec_digits(n as nat));
    }
}

/// Appends the three-digit zero-padded decimal text of a value below 1000.
pub fn push_three_dec(s: &mut String, n: u64)
    requires
        n < 1000,
    ensures
        final(s)@ == old(s)@ + three_dec_digits(n as nat),
{
    push_digit(s, n / 100);
    push_digit(s, (n / 10) % 10);
    push_digit(s, n % 10);
    proof {
        assert(s@ =~= old(s)@ + three_dec_digits(n as nat));
    }
}

/// Appends the decimal text of a value, left-padded with '0' to a width of
/// at least two.
pub fn push_min_two_dec(s: &mut String, n: u64)
    ensures
        final(s)@ == old(s)@ + min_two_dec_digits(n as nat),
{
    if n < 10 {
        s.append("0");
        push_digit(s, n);
        proof {
            reveal_strlit("0");
            assert(s@ =~= old(s)@ + min_two_dec_digits(n as nat));
        }
    } else {
        push_dec(s, n);
    }
}

/// Appends the character of one hexadecimal digit value, lower case.
pub fn push_hex_digit(s: &mut String, d: u64)
    requires
        d < 16,
    ensures
        final(s)@ == old(s)@ + seq![hex_digit_char(d as int)],
{
    if d < 10 {
        push_digit(s, d);
    } else {
        let t: &str = if d == 10 {
            "a"
        } else if d == 11 {
            "b"
        } else if d == 12 {
            "c"
        } else if d == 13 {
            "d"
        } else if d == 14 {
            "e"
        } else {
            "f"
        };
        proof {
            reveal_strlit("a");
            reveal_strlit("b");
            reveal_strlit("c");
            reveal_strlit("d");
            reveal_strlit("e");
            reveal_strlit("f");
            assert(t@ =~= seq![hex_digit_char(d as int)]);
        }
        s.append(t);
    }
}

/// Appends the two-digit zero-padded lower-case hexadecimal text of a value
/// below 256.
pub fn push_two_hex(s: &mut String, n: u64)
    requires
        n < 256,
    ensures
        final(s)@ == old(s)@ + two_hex_digits(n as nat),
{
    push_hex_digit(s, n / 16);
    push_hex_digit(s, n % 16);
    proof {
        assert(s@ =~= old(s)@ + two_hex_digits(n as nat));
    }
}

} // verus!
