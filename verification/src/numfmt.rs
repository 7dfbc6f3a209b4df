//! Decimal text for scalar values.
//!
//! Tick labels use the fixed two-decimal form (`"0.00"`, `"-12.50"`), while
//! the equation box uses the trimmed form that drops trailing fraction zeros
//! (`"4.5"`, `"2"`), matching how whole and half values read in a formula.

use crate::scalar::Scalar;
use vstd::prelude::*;

verus! {

/// The decimal digit character for a value below ten.
pub open spec fn digit_char(d: int) -> char {
    if d == 0 {
        '0'
    } else if d == 1 {
        '1'
    } else if d == 2 {
        '2'
    } else if d == 3 {
        '3'
    } else if d == 4 {
        '4'
    } else if d == 5 {
        '5'
    } else if d == 6 {
        '6'
    } else if d == 7 {
        '7'
    } else if d == 8 {
        '8'
    } else {
        '9'
    }
}

/// The decimal digits of a natural number, most significant first.
pub open spec fn dec_digits(n: nat) -> Seq<char>
    decreases n,
{
    if n < 10 {
        seq![digit_char(n as int)]
    } else {
        dec_digits(n / 10).push(digit_char((n % 10) as int))
    }
}

/// The text of a scalar with exactly two decimal places, as tick labels use:
/// sign, whole part, a point, and the two fraction digits.
pub open spec fn fixed2_str(units: int) -> Seq<char> {
    let sign: Seq<char> = if units < 0 {
        seq!['-']
    } else {
        Seq::empty()
    };
    let a = vstd::math::abs(units);
    sign + dec_digits(a / 100) + seq!['.', digit_char(((a % 100) / 10) as int), digit_char(
        ((a % 100) % 10) as int,
    )]
}

/// The text of a scalar with trailing fraction zeros dropped, as the equation
/// box uses: a whole value shows no point at all.
pub open spec fn trimmed_str(units: int) -> Seq<char> {
    let sign: Seq<char> = if units < 0 {
        seq!['-']
    } else {
        Seq::empty()
    };
    let a = vstd::math::abs(units);
    let frac = a % 100;
    if frac == 0 {
        sign + dec_digits(a / 100)
    } else if frac % 10 == 0 {
        sign + dec_digits(a / 100) + seq!['.', digit_char((frac / 10) as int)]
    } else {
        sign + dec_digits(a / 100) + seq!['.', digit_char((frac / 10) as int), digit_char(
            (frac % 10) as int,
        )]
    }
}

/// The executable digit character of `d`.
fn digit_char_of(d: u64) -> (c: char)
    requires
        d < 10,
    ensures
        c == digit_char(d as int),
{
    if d == 0 {
        '0'
    } else if d == 1 {
        '1'
    } else if d == 2 {
        '2'
    } else if d == 3 {
        '3'
    } else if d == 4 {
        '4'
    } else if d == 5 {
        '5'
    } else if d == 6 {
        '6'
    } else if d == 7 {
        '7'
    } else if d == 8 {
        '8'
    } else {
        '9'
    }
}

/// Appends the decimal digit characters of `n` to a character vector,
/// most significant first.
fn push_decimal_chars(v: &mut Vec<char>, n: u64)
    ensures
        final(v)@ == old(v)@ + dec_digits(n as nat),
    decreases n,
{
    if n >= 10 {
        push_decimal_chars(v, n / 10);
    }
    v.push(digit_char_of(n % 10));
    proof {
        assert(v@ =~= old(v)@ + dec_digits(n as nat));
    }
}

/// The fixed two-decimal text of a scalar as a character vector.
pub fn fixed2_chars(val: Scalar) -> (v: Vec<char>)
    ensures
        v@ == fixed2_str(val@),
{
    let mut v: Vec<char> = Vec::new();
    if val.units < 0 {
        v.push('-');
    }
    let a = units_magnitude(val);
    push_decimal_chars(&mut v, a / 100);
    v.push('.');
    v.push(digit_char_of((a % 100) / 10));
    v.push(digit_char_of((a % 100) % 10));
    proof {
        assert(v@ =~= fixed2_str(val@));
    }
    v
}

/// The trimmed text of a scalar as a character vector.
pub fn trimmed_chars(val: Scalar) -> (v: Vec<char>)
    ensures
        v@ == trimmed_str(val@),
{
    let mut v: Vec<char> = Vec::new();
    if val.units < 0 {
        v.push('-');
    }
    let a = units_magnitude(val);
    push_decimal_chars(&mut v, a / 100);
    let frac = a % 100;
    if frac != 0 {
        v.push('.');
        v.push(digit_char_of(frac / 10));
        if frac % 10 != 0 {
            v.push(digit_char_of(frac % 10));
        }
    }
    proof {
        assert(v@ =~= trimmed_str(val@));
    }
    v
}

/// Appends the single digit character of `d`.
fn push_digit(s: &mut String, d: u64)
    requires
        d < 10,
    ensures
        final(s)@ == old(s)@ + seq![digit_char(d as int)],
{
    let c: &str = if d == 0 {
        "0"
    } else if d == 1 {
        "1"
    } else if d == 2 {
        "2"
    } else if d == 3 {
        "3"
    } else if d == 4 {
        "4"
    } else if d == 5 {
        "5"
    } else if d == 6 {
        "6"
    } else if d == 7 {
        "7"
    } else if d == 8 {
        "8"
    } else {
        "9"
    };
    proof {
        reveal_strlit("0");
        reveal_strlit("1");
        reveal_strlit("2");
        reveal_strlit("3");
        reveal_strlit("4");
        reveal_strlit("5");
        reveal_strlit("6");
        reveal_strlit("7");
        reveal_strlit("8");
        reveal_strlit("9");
        assert(c@ =~= seq![digit_char(d as int)]);
    }
    s.append(c);
}

/// Appends the decimal digits of `n`, most significant first.
fn push_decimal(s: &mut String, n: u64)
    ensures
        final(s)@ == old(s)@ + dec_digits(n as nat),
    decreases n,
{
    if n >= 10 {
        push_decimal(s, n / 10);
    }
    push_digit(s, n % 10);
    proof {
        assert(s@ =~= old(s)@ + dec_digits(n as nat));
    }
}

/// The magnitude of a scalar's unit count, exact even at the `i64` minimum.
fn units_magnitude(v: Scalar) -> (a: u64)
    ensures
        a as int == vstd::math::abs(v@),
{
    if v.units < 0 {
        (-(v.units as i128)) as u64
    } else {
        v.units as u64
    }
}

/// The fixed two-decimal text of a scalar, as tick labels show it.
pub fn scalar_fixed2(v: Scalar) -> (s: String)
    ensures
        s@ == fixed2_str(v@),
{
    let mut s = String::from_str("");
    proof {
        reveal_strlit("");
        reveal_strlit("-");
        reveal_strlit(".");
    }
    if v.units < 0 {
        s.append("-");
    }
    let a = units_magnitude(v);
    push_decimal(&mut s, a / 100);
    s.append(".");
    push_digit(&mut s, (a % 100) / 10);
    push_digit(&mut s, (a % 100) % 10);
    proof {
        assert(s@ =~= fixed2_str(v@));
    }
    s
}

/// The trimmed text of a scalar, as the equation box shows it.
pub fn scalar_trimmed(v: Scalar) -> (s: String)
    ensures
        s@ == trimmed_str(v@),
{
    let mut s = String::from_str("");
    proof {
        reveal_strlit("");
        reveal_strlit("-");
        reveal_strlit(".");
    }
    if v.units < 0 {
        s.append("-");
    }
    let a = units_magnitude(v);
    push_decimal(&mut s, a / 100);
    let frac = a % 100;
    if frac != 0 {
        s.append(".");
        push_digit(&mut s, frac / 10);
        if frac % 10 != 0 {
            push_digit(&mut s, frac % 10);
        }
    }
    proof {
        assert(s@ =~= trimmed_str(v@));
    }
    s
}

} // verus!
