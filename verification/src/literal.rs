//! Decimal literals of floating-point numbers: which texts write one.
use vstd::prelude::*;

use crate::number;
use crate::split;
use crate::split::find_from;
use crate::text::{chars_of, text_eq};

verus! {

/// Whether a text is made of decimal digits only, possibly none.
pub open spec fn digits_only(s: Seq<char>) -> bool {
    forall|i: int| 0 <= i < s.len() ==> number::is_digit(#[trigger] s[i])
}

/// Digits with at most one decimal point among them, and at least one digit.
pub open spec fn is_mantissa(s: Seq<char>) -> bool {
    let point = split::until(s, '.') as int;
    if point >= s.len() {
        s.len() > 0 && digits_only(s)
    } else {
        s.len() > 1 && digits_only(s.take(point)) && digits_only(s.skip(point + 1))
    }
}

/// A text without the sign that it may begin with.
pub open spec fn unsigned(s: Seq<char>) -> Seq<char> {
    if s.len() > 0 && (s[0] == '+' || s[0] == '-') {
        s.drop_first()
    } else {
        s
    }
}

/// Digits behind an optional sign, at least one.
pub open spec fn is_exponent(s: Seq<char>) -> bool {
    unsigned(s).len() > 0 && digits_only(unsigned(s))
}

/// Where the mark of the exponent stands, or the end.
pub open spec fn exponent_at(s: Seq<char>) -> int {
    let lower = split::until(s, 'e') as int;
    let upper = split::until(s, 'E') as int;
    if lower < upper {
        lower
    } else {
        upper
    }
}

/// A mantissa with an optional exponent.
pub open spec fn is_decimal(s: Seq<char>) -> bool {
    let mark = exponent_at(s);
    if mark >= s.len() {
        is_mantissa(s)
    } else {
        is_mantissa(s.take(mark)) && is_exponent(s.skip(mark + 1))
    }
}

/// A letter in lower case; any other character as it is.
pub open spec fn ascii_lower(c: char) -> char {
    if 'A' <= c && c <= 'Z' {
        ((c as u8) + 32) as char
    } else {
        c
    }
}

/// A text with its letters in lower case.
pub open spec fn ascii_lower_text(s: Seq<char>) -> Seq<char> {
    s.map_values(|c: char| ascii_lower(c))
}

/// A name of a value without digits.
pub open spec fn is_special(s: Seq<char>) -> bool {
    let name = ascii_lower_text(s);
    name == "inf"@ || name == "infinity"@ || name == "nan"@
}

/// Whether a text writes a floating-point number: an optional sign, then a
/// decimal number with an optional exponent, or the name of an infinity or of
/// what is no number, in any case.
pub open spec fn is_float(s: Seq<char>) -> bool {
    is_special(unsigned(s)) || is_decimal(unsigned(s))
}

fn all_digits(v: &Vec<char>, from: usize, to: usize) -> (r: bool)
    requires
        from <= to <= v.len(),
    ensures
        r == digits_only(v@.subrange(from as int, to as int)),
{
    let ghost part = v@.subrange(from as int, to as int);
    for i in from..to
        invariant
            from <= to <= v.len(),
            part == v@.subrange(from as int, to as int),
            forall|j: int| 0 <= j < i - from ==> number::is_digit(#[trigger] part[j]),
    {
        assert(part[i - from] == v@[i as int]);
        if !('0' <= v[i] && v[i] <= '9') {
            return false;
        }
    }
    true
}

fn part_of(v: &Vec<char>, from: usize, to: usize) -> (r: Vec<char>)
    requires
        from <= to <= v.len(),
    ensures
        r@ == v@.subrange(from as int, to as int),
{
    let mut out: Vec<char> = Vec::new();
    for i in from..to
        invariant
            from <= to <= v.len(),
            out@ == v@.subrange(from as int, i as int),
    {
        out.push(v[i]);
        assert(out@ =~= v@.subrange(from as int, i + 1));
    }
    out
}

fn mantissa(v: &Vec<char>) -> (r: bool)
    ensures
        r == is_mantissa(v@),
{
    let n: usize = v.len();
    assert(v@.skip(0) =~= v@);
    let point: usize = find_from(v, 0, '.');
    if point == n {
        assert(v@.subrange(0, n as int) =~= v@);
        return n > 0 && all_digits(v, 0, n);
    }
    assert(v@.subrange(0, point as int) =~= v@.take(point as int));
    assert(v@.subrange(point + 1, n as int) =~= v@.skip(point + 1));
    n > 1 && all_digits(v, 0, point) && all_digits(v, point + 1, n)
}

fn sign_len(v: &Vec<char>) -> (r: usize)
    ensures
        r <= v.len(),
        v@.skip(r as int) == unsigned(v@),
{
    if v.len() > 0 && (v[0] == '+' || v[0] == '-') {
        assert(v@.skip(1) =~= v@.drop_first());
        1
    } else {
        assert(v@.skip(0) =~= v@);
        0
    }
}

fn decimal(v: &Vec<char>) -> (r: bool)
    ensures
        r == is_decimal(v@),
{
    let n: usize = v.len();
    assert(v@.skip(0) =~= v@);
    let lower: usize = find_from(v, 0, 'e');
    let upper: usize = find_from(v, 0, 'E');
    let mark: usize = if lower < upper {
        lower
    } else {
        upper
    };
    if mark == n {
        return mantissa(v);
    }
    let head = part_of(v, 0, mark);
    let tail = part_of(v, mark + 1, n);
    assert(head@ =~= v@.take(mark as int));
    assert(tail@ =~= v@.skip(mark + 1));
    let sign: usize = sign_len(&tail);
    assert(tail@.subrange(sign as int, tail.len() as int) =~= unsigned(tail@));
    mantissa(&head) && sign < tail.len() && all_digits(&tail, sign, tail.len())
}

fn special(v: &Vec<char>) -> (r: bool)
    ensures
        r == is_special(v@),
{
    let mut name = String::new();
    for i in 0..v.len()
        invariant
            name@ == ascii_lower_text(v@).take(i as int),
    {
        let c = v[i];
        let lower = if 'A' <= c && c <= 'Z' {
            ((c as u8) + 32) as char
        } else {
            c
        };
        name.push(lower);
        assert(name@ =~= ascii_lower_text(v@).take(i + 1));
    }
    assert(name@ =~= ascii_lower_text(v@));
    text_eq(name.as_str(), "inf") || text_eq(name.as_str(), "infinity") || text_eq(
        name.as_str(),
        "nan",
    )
}

/// Whether a text writes a floating-point number.
pub fn writes_float(s: &str) -> (r: bool)
    ensures
        r == is_float(s@),
{
    let v = chars_of(s);
    let sign: usize = sign_len(&v);
    let body = part_of(&v, sign, v.len());
    assert(body@ =~= unsigned(s@));
    special(&body) || decimal(&body)
}

} // verus!
