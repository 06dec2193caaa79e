//! Decimal rendering of integers into strings, for generated names and messages.
use vstd::prelude::*;

verus! {

/// The character of a decimal digit.
pub open spec fn digit_char(d: int) -> char {
    ((48 + d) as u8) as char
}

/// Decimal digits of a natural number, most significant first, without sign;
/// zero renders as a single `0`.
pub open spec fn decimal_digits(n: nat) -> Seq<char>
    decreases n,
{
    if n < 10 {
        seq![digit_char(n as int)]
    } else {
        decimal_digits(n / 10).push(digit_char((n % 10) as int))
    }
}

/// Decimal rendering of an integer, with a leading `-` when negative.
pub open spec fn decimal(n: int) -> Seq<char> {
    if n < 0 {
        seq!['-'] + decimal_digits((-n) as nat)
    } else {
        decimal_digits(n as nat)
    }
}

/// Decimal rendering padded with zeros to at least two digits.
pub open spec fn decimal_pad2(n: nat) -> Seq<char> {
    if n < 10 {
        seq!['0', digit_char(n as int)]
    } else {
        decimal_digits(n)
    }
}

/// Every natural number has at least one digit, and two or more from ten on.
proof fn lemma_decimal_digits_len(n: nat)
    ensures
        decimal_digits(n).len() >= 1,
        n >= 10 ==> decimal_digits(n).len() >= 2,
    decreases n,
{
    if n >= 10 {
        lemma_decimal_digits_len(n / 10);
    }
}

/// Distinct natural numbers have distinct decimal renderings.
pub proof fn lemma_decimal_digits_injective(a: nat, b: nat)
    requires
        a != b,
    ensures
        decimal_digits(a) != decimal_digits(b),
    decreases a + b,
{
    lemma_decimal_digits_len(a);
    lemma_decimal_digits_len(b);
    if a < 10 && b < 10 {
        assert(decimal_digits(a)[0] != decimal_digits(b)[0]);
    } else if a >= 10 && b >= 10 {
        let da = decimal_digits(a);
        let db = decimal_digits(b);
        if (a % 10) != (b % 10) {
            assert(da.last() != db.last());
        } else {
            assert(a / 10 != b / 10);
            lemma_decimal_digits_injective(a / 10, b / 10);
            if da == db {
                assert(da.drop_last() =~= decimal_digits(a / 10));
                assert(db.drop_last() =~= decimal_digits(b / 10));
            }
        }
    }
}

/// The digit characters are the ASCII digits `0` to `9`.
pub proof fn lemma_digit_chars()
    ensures
        digit_char(0) == '0',
        digit_char(1) == '1',
        digit_char(2) == '2',
        digit_char(3) == '3',
        digit_char(4) == '4',
        digit_char(5) == '5',
        digit_char(6) == '6',
        digit_char(7) == '7',
        digit_char(8) == '8',
        digit_char(9) == '9',
{
}

/// Below one hundred, the padded rendering is exactly the tens digit then the
/// units digit.
pub proof fn lemma_decimal_pad2_digits(n: nat)
    requires
        n < 100,
    ensures
        decimal_pad2(n) == seq![digit_char((n / 10) as int), digit_char((n % 10) as int)],
{
    if n >= 10 {
        assert(decimal_digits(n / 10) == seq![digit_char((n / 10) as int)]);
        assert(decimal_pad2(n) =~= seq![digit_char((n / 10) as int), digit_char((n % 10) as int)]);
    } else {
        assert(decimal_pad2(n) =~= seq![digit_char((n / 10) as int), digit_char((n % 10) as int)]);
    }
}

/// Appends the character of the decimal digit `d`.
fn push_digit(s: &mut String, d: u64)
    requires
        d < 10,
    ensures
        final(s)@ == old(s)@.push(digit_char(d as int)),
{
    match d {
        0 => {
            proof {
                reveal_strlit("0");
            }
            s.append("0");
        },
        1 => {
            proof {
                reveal_strlit("1");
            }
            s.append("1");
        },
        2 => {
            proof {
                reveal_strlit("2");
            }
            s.append("2");
        },
        3 => {
            proof {
                reveal_strlit("3");
            }
            s.append("3");
        },
        4 => {
            proof {
                reveal_strlit("4");
            }
            s.append("4");
        },
        5 => {
            proof {
                reveal_strlit("5");
            }
            s.append("5");
        },
        6 => {
            proof {
                reveal_strlit("6");
            }
            s.append("6");
        },
        7 => {
            proof {
                reveal_strlit("7");
            }
            s.append("7");
        },
        8 => {
            proof {
                reveal_strlit("8");
            }
            s.append("8");
        },
        _ => {
            proof {
                reveal_strlit("9");
            }
            s.append("9");
        },
    }
    assert(s@ =~= old(s)@.push(digit_char(d as int)));
}

/// Appends a minus sign.
fn push_minus(s: &mut String)
    ensures
        final(s)@ == old(s)@.push('-'),
{
    proof {
        reveal_strlit("-");
    }
    s.append("-");
    assert(s@ =~= old(s)@.push('-'));
}

/// Appends the decimal digits of `n`.
pub fn push_decimal_u64(s: &mut String, n: u64)
    ensures
        final(s)@ == old(s)@ + decimal_digits(n as nat),
    decreases n,
{
    if n < 10 {
        push_digit(s, n);
        assert(decimal_digits(n as nat) =~= seq![digit_char(n as int)]);
    } else {
        push_decimal_u64(s, n / 10);
        let d = n % 10;
        push_digit(s, d);
    }
}

/// Appends the decimal rendering of `n`, with a `-` when negative.
pub fn push_decimal_i64(s: &mut String, n: i64)
    ensures
        final(s)@ == old(s)@ + decimal(n as int),
{
    if n < 0 {
        push_minus(s);
        let m: u64 = if n == i64::MIN { 9223372036854775808u64 } else { (-n) as u64 };
        push_decimal_u64(s, m);
        assert(old(s)@.push('-') + decimal_digits(m as nat) =~= old(s)@ + (seq!['-'] + decimal_digits(m as nat)));
    } else {
        push_decimal_u64(s, n as u64);
    }
}

/// Appends `n` in decimal, zero-padded to two digits.
pub fn push_decimal_pad2(s: &mut String, n: u64)
    ensures
        final(s)@ == old(s)@ + decimal_pad2(n as nat),
{
    if n < 10 {
        push_digit(s, 0);
        push_decimal_u64(s, n);
        assert(decimal_digits(n as nat) =~= seq![digit_char(n as int)]);
        assert(old(s)@.push('0') + decimal_digits(n as nat) =~= old(s)@ + seq!['0', digit_char(n as int)]);
    } else {
        push_decimal_u64(s, n);
    }
}

} // verus!
