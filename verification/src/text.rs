//! Decimal rendering of integers, with the facts about it that the
//! temporary-file naming scheme needs (distinct numbers render to distinct
//! digit strings).

use vstd::prelude::*;

verus! {

/// Relies on String::push: appends the one character to the end of the string.
pub assume_specification[ String::push ](s: &mut String, c: char)
    ensures
        final(s)@ == old(s)@.push(c),
;

/// The decimal digit character for a value below ten.
pub open spec fn dec_digit_char(d: int) -> char {
    if d == 0 {
        '0'
    } else if d == 1 {
        '1'
    } else if d == 2 {
        '2'
    } else if d == 3 {
        '3'
    } else if d == 4 {
        '4'
    } else if d == 5 {
        '5'
    } else if d == 6 {
        '6'
    } else if d == 7 {
        '7'
    } else if d == 8 {
        '8'
    } else {
        '9'
    }
}

/// The usual decimal rendering of a natural number: no sign, no leading
/// zeros (except for the single digit of zero itself).
pub open spec fn dec_str(n: nat) -> Seq<char>
    decreases n,
{
    if n < 10 {
        seq![dec_digit_char(n as int)]
    } else {
        dec_str(n / 10).push(dec_digit_char((n % 10) as int))
    }
}

/// The decimal rendering of an integer: a minus sign before the digits of
/// the absolute value when the integer is negative.
pub open spec fn int_str(v: int) -> Seq<char> {
    if v >= 0 {
        dec_str(v as nat)
    } else {
        seq!['-'] + dec_str((-v) as nat)
    }
}

fn dec_digit(d: u64) -> (c: char)
    requires
        d < 10,
    ensures
        c == dec_digit_char(d as int),
{
    if d == 0 {
        '0'
    } else if d == 1 {
        '1'
    } else if d == 2 {
        '2'
    } else if d == 3 {
        '3'
    } else if d == 4 {
        '4'
    } else if d == 5 {
        '5'
    } else if d == 6 {
        '6'
    } else if d == 7 {
        '7'
    } else if d == 8 {
        '8'
    } else {
        '9'
    }
}

/// Renders a natural number in decimal.
pub fn u64_to_string(n: u64) -> (r: String)
    ensures
        r@ == dec_str(n as nat),
    decreases n,
{
    if n < 10 {
        let mut s = String::new();
        s.push(dec_digit(n));
        s
    } else {
        let mut s = u64_to_string(n / 10);
        s.push(dec_digit(n % 10));
        s
    }
}

/// Renders a signed integer in decimal; the smallest value is excluded so
/// that taking the absolute value cannot overflow.
pub fn i64_to_string(v: i64) -> (r: String)
    requires
        v > i64::MIN,
    ensures
        r@ == int_str(v as int),
{
    if v >= 0 {
        u64_to_string(v as u64)
    } else {
        let mut s = String::new();
        s.push('-');
        let digits = u64_to_string((-v) as u64);
        s.append(digits.as_str());
        proof {
            assert(s@ =~= int_str(v as int));
        }
        s
    }
}

pub proof fn lemma_dec_str_len(n: nat)
    ensures
        dec_str(n).len() >= 1,
        n >= 10 ==> dec_str(n).len() >= 2,
    decreases n,
{
    if n >= 10 {
        lemma_dec_str_len(n / 10);
    }
}

/// Distinct natural numbers render to distinct decimal strings.
pub proof fn lemma_dec_str_injective(a: nat, b: nat)
    requires
        dec_str(a) == dec_str(b),
    ensures
        a == b,
    decreases a + b,
{
    lemma_dec_str_len(a);
    lemma_dec_str_len(b);
    if a < 10 && b < 10 {
        assert(seq![dec_digit_char(a as int)][0] == dec_digit_char(a as int));
        assert(seq![dec_digit_char(b as int)][0] == dec_digit_char(b as int));
        assert(dec_str(a)[0] == dec_str(b)[0]);
        assert(dec_digit_char(a as int) == dec_digit_char(b as int));
        assert(a == b);
    } else if a < 10 && b >= 10 {
        assert(dec_str(a).len() == 1 && dec_str(b).len() >= 2);
    } else if a >= 10 && b < 10 {
        assert(dec_str(a).len() >= 2 && dec_str(b).len() == 1);
    } else {
        let da = dec_digit_char((a % 10) as int);
        let db = dec_digit_char((b % 10) as int);
        assert(dec_str(a) == dec_str(a / 10).push(da));
        assert(dec_str(b) == dec_str(b / 10).push(db));
        assert(dec_str(a / 10).push(da).last() == da);
        assert(dec_str(b / 10).push(db).last() == db);
        assert(da == db);
        assert(a % 10 == b % 10);
        assert(dec_str(a).drop_last() =~= dec_str(a / 10));
        assert(dec_str(b).drop_last() =~= dec_str(b / 10));
        assert(dec_str(a / 10) == dec_str(b / 10));
        lemma_dec_str_injective(a / 10, b / 10);
        assert(a == 10 * (a / 10) + a % 10);
        assert(b == 10 * (b / 10) + b % 10);
        assert(a == b);
    }
}

} // verus!
