//! Decimal notation: rendering an integer and reading a run of digits.

use vstd::prelude::*;
use vstd::string::StringExecFns;
use crate::token::{is_digit_char, digit_char};

verus! {

/// The character that writes the digit `d`.
pub open spec fn digit(d: int) -> char {
    if d == 0 {
        '0'
    } else if d == 1 {
        '1'
    } else if d == 2 {
        '2'
    } else if d == 3 {
        '3'
    } else if d == 4 {
        '4'
    } else if d == 5 {
        '5'
    } else if d == 6 {
        '6'
    } else if d == 7 {
        '7'
    } else if d == 8 {
        '8'
    } else {
        '9'
    }
}

/// The decimal notation of `n`, without leading zeros.
pub open spec fn decimal(n: nat) -> Seq<char>
    decreases n,
{
    if n < 10 {
        seq![digit(n as int)]
    } else {
        decimal(n / 10).push(digit((n % 10) as int))
    }
}

/// The decimal notation of `i`, with a minus sign where `i` is negative.
pub open spec fn signed_decimal(i: int) -> Seq<char> {
    if i < 0 {
        seq!['-'] + decimal((-i) as nat)
    } else {
        decimal(i as nat)
    }
}

/// The digit that `c` writes; meaningful where `c` is a decimal digit.
pub open spec fn digit_value(c: char) -> int {
    c as int - '0' as int
}

/// The number that a run of digits writes, leading zeros allowed.
pub open spec fn digits_value(s: Seq<char>) -> nat
    decreases s.len(),
{
    if s.len() == 0 {
        0
    } else {
        (digits_value(s.drop_last()) * 10 + digit_value(s.last())) as nat
    }
}

/// The one-character string that writes the digit `d`.
fn digit_str(d: u64) -> (r: &'static str)
    requires
        d < 10,
    ensures
        r@ == seq![digit(d as int)],
{
    proof {
        reveal_strlit("0");
        reveal_strlit("1");
        reveal_strlit("2");
        reveal_strlit("3");
        reveal_strlit("4");
        reveal_strlit("5");
        reveal_strlit("6");
        reveal_strlit("7");
        reveal_strlit("8");
        reveal_strlit("9");
    }
    let r = if d == 0 {
        "0"
    } else if d == 1 {
        "1"
    } else if d == 2 {
        "2"
    } else if d == 3 {
        "3"
    } else if d == 4 {
        "4"
    } else if d == 5 {
        "5"
    } else if d == 6 {
        "6"
    } else if d == 7 {
        "7"
    } else if d == 8 {
        "8"
    } else {
        "9"
    };
    assert(r@ =~= seq![digit(d as int)]);
    r
}

/// Renders `n` in decimal notation.
pub fn decimal_string(n: u64) -> (r: String)
    ensures
        r@ == decimal(n as nat),
    decreases n,
{
    if n < 10 {
        String::from_str(digit_str(n))
    } else {
        let mut s = decimal_string(n / 10);
        s.append(digit_str(n % 10));
        assert(s@ =~= decimal((n / 10) as nat).push(digit((n % 10) as int)));
        s
    }
}

/// Renders `i` in decimal notation, with a minus sign where it is negative.
pub fn signed_decimal_string(i: i32) -> (r: String)
    ensures
        r@ == signed_decimal(i as int),
{
    if i < 0 {
        let magnitude: u64 = (-(i as i64)) as u64;
        let mut s = String::from_str("-");
        let digits = decimal_string(magnitude);
        s.append(digits.as_str());
        proof {
            reveal_strlit("-");
            assert(s@ =~= seq!['-'] + decimal((-i) as nat));
        }
        s
    } else {
        decimal_string(i as u64)
    }
}

/// The length of the longest run of decimal digits that starts at `from`.
pub open spec fn digit_run(s: Seq<char>, from: int) -> nat
    decreases s.len() - from,
{
    if 0 <= from < s.len() && is_digit_char(s[from]) {
        1 + digit_run(s, from + 1)
    } else {
        0
    }
}

/// Reads the longest run of decimal digits of `v` that starts at `from`.
/// Returns its end, and its value where that fits in 32 bits.
pub(crate) fn read_digits(v: &Vec<char>, from: usize) -> (r: (usize, Option<u32>))
    requires
        from <= v.len(),
    ensures
        r.0 == from + digit_run(v@, from as int),
        r.0 <= v.len(),
        r.1 == (if digits_value(v@.subrange(from as int, r.0 as int)) <= u32::MAX {
            Some(digits_value(v@.subrange(from as int, r.0 as int)) as u32)
        } else {
            None
        }),
{
    let mut i: usize = from;
    let mut value: u64 = 0;
    let mut fits: bool = true;
    while i < v.len() && digit_char(v[i])
        invariant
            from <= i <= v.len(),
            from + digit_run(v@, from as int) == i + digit_run(v@, i as int),
            fits ==> value == digits_value(v@.subrange(from as int, i as int)),
            fits ==> value <= u32::MAX,
            !fits ==> digits_value(v@.subrange(from as int, i as int)) > u32::MAX,
        decreases v.len() - i,
    {
        let d: u64 = (v[i] as u32 - '0' as u32) as u64;
        proof {
            let next = v@.subrange(from as int, i + 1);
            assert(next.drop_last() == v@.subrange(from as int, i as int));
            assert(next.last() == v@[i as int]);
            assert(d == digit_value(v@[i as int]));
        }
        if fits {
            value = value * 10 + d;
            if value > 0xffff_ffff {
                fits = false;
            }
        }
        i += 1;
    }
    if fits {
        (i, Some(value as u32))
    } else {
        (i, None)
    }
}

} // verus!
