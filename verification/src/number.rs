//! Integers as text: decimal printing and parsing.
use vstd::prelude::*;

use crate::text::chars_of;

verus! {

/// The character of a decimal digit.
pub open spec fn digit_char(d: int) -> char {
    ('0' as int + d) as char
}

/// Whether a character is a decimal digit.
pub open spec fn is_digit(c: char) -> bool {
    '0' <= c && c <= '9'
}

/// What a decimal digit stands for.
pub open spec fn digit_value(c: char) -> int {
    c as int - '0' as int
}

/// The decimal text of a natural number.
pub open spec fn decimal_nat(n: nat) -> Seq<char>
    decreases n,
{
    if n < 10 {
        seq![digit_char(n as int)]
    } else {
        decimal_nat(n / 10).push(digit_char((n % 10) as int))
    }
}

/// The decimal text of an integer.
pub open spec fn decimal(n: int) -> Seq<char> {
    if n < 0 {
        seq!['-'] + decimal_nat((-n) as nat)
    } else {
        decimal_nat(n as nat)
    }
}

/// Whether a text is made of decimal digits, at least one.
pub open spec fn all_digits(s: Seq<char>) -> bool {
    s.len() > 0 && forall|i: int| 0 <= i < s.len() ==> is_digit(#[trigger] s[i])
}

/// The number that a sequence of digits writes.
pub open spec fn digits_value(s: Seq<char>) -> int
    decreases s.len(),
{
    if s.len() == 0 {
        0
    } else {
        digits_value(s.drop_last()) * 10 + digit_value(s.last())
    }
}

/// The integer that a text writes: digits with an optional sign, where a minus
/// sign counts only for a signed number.
pub open spec fn integer_of(s: Seq<char>, signed: bool) -> Option<int> {
    let body = if s.len() > 0 && (s[0] == '+' || (signed && s[0] == '-')) {
        s.drop_first()
    } else {
        s
    };
    if all_digits(body) {
        Some(if s[0] == '-' { -digits_value(body) } else { digits_value(body) })
    } else {
        None
    }
}

/// The integer that a text writes, if it lies between `low` and `high`.
pub open spec fn parsed_integer(s: Seq<char>, signed: bool, low: int, high: int) -> Option<int> {
    match integer_of(s, signed) {
        Some(n) => if low <= n <= high { Some(n) } else { None },
        None => None,
    }
}

/// A digit as a character.
fn digit(d: u8) -> (c: char)
    requires
        d < 10,
    ensures
        c == digit_char(d as int),
{
    (48u8 + d) as char
}

/// Appends the decimal text of `n`.
pub fn push_decimal(out: &mut String, n: u64)
    ensures
        final(out)@ == old(out)@ + decimal_nat(n as nat),
    decreases n,
{
    let ghost before = out@;
    if n >= 10 {
        push_decimal(out, n / 10);
    }
    out.push(digit((n % 10) as u8));
    assert(out@ =~= before + decimal_nat(n as nat));
}

/// The decimal text of an unsigned number.
pub fn decimal_u64(n: u64) -> (r: String)
    ensures
        r@ == decimal(n as int),
{
    let mut out = String::new();
    push_decimal(&mut out, n);
    assert(out@ =~= decimal(n as int));
    out
}

/// The decimal text of a signed number.
pub fn decimal_i64(n: i64) -> (r: String)
    ensures
        r@ == decimal(n as int),
{
    let mut out = String::new();
    if n < 0 {
        out.push('-');
        let magnitude: u64 = (-(n as i128)) as u64;
        push_decimal(&mut out, magnitude);
    } else {
        push_decimal(&mut out, n as u64);
    }
    assert(out@ =~= decimal(n as int));
    out
}

proof fn lemma_digits_value_grows(s: Seq<char>, k: int)
    requires
        0 <= k <= s.len(),
        forall|i: int| 0 <= i < s.len() ==> is_digit(#[trigger] s[i]),
    ensures
        0 <= digits_value(s.take(k)) <= digits_value(s),
    decreases s.len(),
{
    if s.len() == 0 {
        assert(s.take(k) =~= s);
    } else if k == s.len() {
        assert(s.take(k) =~= s);
        assert forall|i: int| 0 <= i < s.drop_last().len() implies is_digit(#[trigger] s.drop_last()[i]) by {
            assert(s.drop_last()[i] == s[i]);
        }
        lemma_digits_value_grows(s.drop_last(), k - 1);
        assert(s.drop_last().take(k - 1) =~= s.drop_last());
        assert(is_digit(s[s.len() - 1]));
    } else {
        assert forall|i: int| 0 <= i < s.drop_last().len() implies is_digit(#[trigger] s.drop_last()[i]) by {
            assert(s.drop_last()[i] == s[i]);
        }
        lemma_digits_value_grows(s.drop_last(), k);
        assert(s.drop_last().take(k) =~= s.take(k));
        assert(is_digit(s[s.len() - 1]));
    }
}

/// The value of the digits from `from` on: `None` if something there is no
/// digit or nothing is there, and `Some(None)` above `u64::MAX`.
fn digits_from(v: &Vec<char>, from: usize) -> (r: Option<Option<u64>>)
    requires
        from <= v.len(),
    ensures
        match r {
            None => !all_digits(v@.skip(from as int)),
            Some(None) => all_digits(v@.skip(from as int)) && digits_value(v@.skip(from as int))
                > u64::MAX,
            Some(Some(n)) => all_digits(v@.skip(from as int)) && digits_value(v@.skip(from as int))
                == n,
        },
{
    let n = v.len();
    let ghost s = v@.skip(from as int);
    if from == n {
        return None;
    }
    let mut i: usize = from;
    let mut acc: u64 = 0;
    let mut over: bool = false;
    assert(s.take(0) =~= Seq::<char>::empty());
    while i < n
        invariant
            n == v.len(),
            from <= i <= n,
            s == v@.skip(from as int),
            forall|j: int| 0 <= j < i - from ==> is_digit(#[trigger] s[j]),
            over ==> digits_value(s.take(i - from)) > u64::MAX,
            !over ==> digits_value(s.take(i - from)) == acc,
        decreases n - i,
    {
        let c = v[i];
        assert(s[i - from] == c);
        if !('0' <= c && c <= '9') {
            assert(!is_digit(s[i - from]));
            return None;
        }
        let d: u64 = c as u64 - 48;
        proof {
            assert(s.take(i - from + 1).drop_last() =~= s.take(i - from));
            assert(s.take(i - from + 1).last() == c);
        }
        if !over {
            let wide: u128 = acc as u128 * 10 + d as u128;
            if wide > u64::MAX as u128 {
                over = true;
            } else {
                acc = wide as u64;
            }
        }
        i = i + 1;
    }
    assert(s.take(n - from) =~= s);
    if over {
        Some(None)
    } else {
        Some(Some(acc))
    }
}

/// Parses a signed number.
pub fn parse_i64(text: &str) -> (r: Option<i64>)
    ensures
        match r {
            Some(n) => parsed_integer(text@, true, i64::MIN as int, i64::MAX as int) == Some(n as int),
            None => parsed_integer(text@, true, i64::MIN as int, i64::MAX as int) is None,
        },
{
    let v = chars_of(text);
    let negative = v.len() > 0 && v[0] == '-';
    let from: usize = if v.len() > 0 && (v[0] == '-' || v[0] == '+') { 1 } else { 0 };
    proof {
        assert(v@.skip(0) =~= v@);
        if v.len() > 0 {
            assert(v@.skip(1) =~= v@.drop_first());
        }
    }
    match digits_from(&v, from) {
        None => None,
        Some(None) => None,
        Some(Some(n)) => {
            if negative {
                if n as i128 <= 0x8000_0000_0000_0000i128 {
                    Some((-(n as i128)) as i64)
                } else {
                    None
                }
            } else if n <= 0x7fff_ffff_ffff_ffffu64 {
                Some(n as i64)
            } else {
                None
            }
        },
    }
}

/// Parses an unsigned number.
pub fn parse_u64(text: &str) -> (r: Option<u64>)
    ensures
        match r {
            Some(n) => parsed_integer(text@, false, 0, u64::MAX as int) == Some(n as int),
            None => parsed_integer(text@, false, 0, u64::MAX as int) is None,
        },
{
    let v = chars_of(text);
    let from: usize = if v.len() > 0 && v[0] == '+' { 1 } else { 0 };
    proof {
        assert(v@.skip(0) =~= v@);
        if v.len() > 0 {
            assert(v@.skip(1) =~= v@.drop_first());
        }
        if all_digits(v@) {
            assert(is_digit(v@[0]));
        }
    }
    match digits_from(&v, from) {
        None => None,
        Some(None) => None,
        Some(Some(n)) => {
            proof {
                lemma_digits_value_grows(v@.skip(from as int), 0);
            }
            Some(n)
        },
    }
}

/// Parses a number of 32 bits.
pub fn parse_u32(text: &str) -> (r: Option<u32>)
    ensures
        match r {
            Some(n) => parsed_integer(text@, false, 0, u32::MAX as int) == Some(n as int),
            None => parsed_integer(text@, false, 0, u32::MAX as int) is None,
        },
{
    match parse_u64(text) {
        Some(n) => if n <= 0xffff_ffffu64 {
            Some(n as u32)
        } else {
            None
        },
        None => {
            None
        },
    }
}

proof fn lemma_decimal_nat(n: nat)
    ensures
        all_digits(decimal_nat(n)),
        digits_value(decimal_nat(n)) == n,
    decreases n,
{
    if n < 10 {
        let s = decimal_nat(n);
        assert(s.drop_last() =~= Seq::<char>::empty());
        assert(digits_value(s.drop_last()) == 0);
        assert(is_digit(s[0]));
    } else {
        lemma_decimal_nat(n / 10);
        let s = decimal_nat(n);
        let p = decimal_nat(n / 10);
        assert(s.drop_last() =~= p);
        assert forall|i: int| 0 <= i < s.len() implies is_digit(#[trigger] s[i]) by {
            if i < p.len() {
                assert(s[i] == p[i]);
            }
        }
    }
}

/// What decimal printing writes, parsing reads back.
pub proof fn decimal_reads_back(n: int)
    ensures
        integer_of(decimal(n), true) == Some(n),
{
    if n < 0 {
        lemma_decimal_nat((-n) as nat);
        assert(decimal(n).drop_first() =~= decimal_nat((-n) as nat));
    } else {
        lemma_decimal_nat(n as nat);
        assert(is_digit(decimal(n)[0]));
    }
}

/// Different integers print differently.
pub proof fn decimal_injective(a: int, b: int)
    requires
        decimal(a) == decimal(b),
    ensures
        a == b,
{
    decimal_reads_back(a);
    decimal_reads_back(b);
}

} // verus!
