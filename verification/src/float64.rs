//! Binary floating-point numbers as their bit patterns.
//!
//! The library compares numbers of the IEEE 754 binary64 format and turns them
//! into byte counts, but computes with none: a number is held as its 64 bits,
//! which fix its value exactly.
use vstd::prelude::*;
use vstd::arithmetic::power2::pow2;

verus! {

/// The bits of zero.
pub const ZERO_BITS: u64 = 0;

/// The weight of the sign bit.
pub const SIGN_WEIGHT: u64 = 0x8000_0000_0000_0000;

/// The bits of positive infinity: every larger magnitude is no number.
pub const INFINITY_BITS: u64 = 0x7ff0_0000_0000_0000;

/// The weight of the lowest exponent bit.
pub const FRACTION_WEIGHT: u64 = 0x10_0000_0000_0000;

/// A binary64 number, as its bit pattern.
#[derive(Debug, Clone, Copy, PartialEq, Eq, Structural, Hash)]
pub struct Float64 {
    pub bits: u64,
}

/// The bits without the sign.
pub open spec fn magnitude(bits: u64) -> int {
    bits as int % SIGN_WEIGHT as int
}

/// The fraction with the leading one of a normal number.
pub open spec fn mantissa(magnitude: int) -> int {
    magnitude % FRACTION_WEIGHT as int + if magnitude >= FRACTION_WEIGHT {
        FRACTION_WEIGHT as int
    } else {
        0
    }
}

/// The power of two that the mantissa is scaled by, above the smallest one.
pub open spec fn exponent(magnitude: int) -> nat {
    if magnitude >= FRACTION_WEIGHT {
        (magnitude / FRACTION_WEIGHT as int - 1) as nat
    } else {
        0
    }
}

/// The absolute value that a magnitude stands for, in units of the smallest
/// positive number, which is 2 to the power of -1074.
pub open spec fn scaled_magnitude(magnitude: int) -> int {
    mantissa(magnitude) * pow2(exponent(magnitude)) as int
}

proof fn lemma_scaled_magnitude_increases(a: int, b: int)
    requires
        0 <= a < b < SIGN_WEIGHT,
    ensures
        0 <= scaled_magnitude(a) < scaled_magnitude(b),
{
    let w = FRACTION_WEIGHT as int;
    let ea = exponent(a);
    let eb = exponent(b);
    let ma = mantissa(a);
    let mb = mantissa(b);
    vstd::arithmetic::power2::lemma_pow2_pos(ea);
    vstd::arithmetic::power2::lemma_pow2_pos(eb);
    let pa = pow2(ea) as int;
    let pb = pow2(eb) as int;
    assert(0 <= ma < 2 * w && 0 <= mb < 2 * w);
    if ea == eb {
        assert(ma < mb);
        assert(ma * pa < mb * pa) by (nonlinear_arith)
            requires
                ma < mb,
                pa > 0,
        ;
        assert(0 <= ma * pa) by (nonlinear_arith)
            requires
                0 <= ma,
                pa > 0,
        ;
    } else {
        assert(ea < eb);
        assert(mb >= w);
        if ea + 1 < eb {
            vstd::arithmetic::power2::lemma_pow2_strictly_increases(ea + 1, eb);
        }
        vstd::arithmetic::power2::lemma_pow2_unfold(ea + 1);
        assert(pb >= 2 * pa);
        assert(ma * pa < 2 * w * pa) by (nonlinear_arith)
            requires
                ma < 2 * w,
                pa > 0,
        ;
        assert(2 * w * pa <= mb * pb) by (nonlinear_arith)
            requires
                mb >= w,
                w > 0,
                pb >= 2 * pa,
                pa > 0,
        ;
        assert(0 <= ma * pa) by (nonlinear_arith)
            requires
                0 <= ma,
                pa > 0,
        ;
    }
}

impl Float64 {
    /// Whether the pattern stands for no number.
    pub open spec fn is_nan(self) -> bool {
        magnitude(self.bits) > INFINITY_BITS
    }

    /// The value in units of the smallest positive number.
    pub open spec fn scaled(self) -> int {
        if self.bits >= SIGN_WEIGHT {
            -scaled_magnitude(magnitude(self.bits))
        } else {
            scaled_magnitude(magnitude(self.bits))
        }
    }

    /// Whether both are numbers and this one is not greater.
    pub open spec fn at_most(self, other: Float64) -> bool {
        !self.is_nan() && !other.is_nan() && self.scaled() <= other.scaled()
    }

    /// Whether both are numbers and this one is smaller.
    pub open spec fn below(self, other: Float64) -> bool {
        !self.is_nan() && !other.is_nan() && self.scaled() < other.scaled()
    }

    /// A whole number of gibibytes as a count of bytes: the fraction of a byte
    /// is dropped, what does not fit is cut to the nearest count, and a pattern
    /// that stands for no number counts nothing.
    pub open spec fn gibibytes(self) -> int {
        let bytes = scaled_magnitude(magnitude(self.bits)) / pow2(1044) as int;
        if self.is_nan() {
            0
        } else if self.bits >= SIGN_WEIGHT {
            if bytes > -(i64::MIN as int) {
                i64::MIN as int
            } else {
                -bytes
            }
        } else if bytes > i64::MAX {
            i64::MAX as int
        } else {
            bytes
        }
    }

    /// The bits as an integer that orders as the values do.
    fn rank(self) -> (r: i64)
        ensures
            r == (if self.bits >= SIGN_WEIGHT {
                -magnitude(self.bits)
            } else {
                magnitude(self.bits)
            }),
    {
        if self.bits >= SIGN_WEIGHT {
            -((self.bits - SIGN_WEIGHT) as i64)
        } else {
            self.bits as i64
        }
    }

    /// Whether the pattern stands for no number.
    pub fn nan(self) -> (r: bool)
        ensures
            r == self.is_nan(),
    {
        self.bits % SIGN_WEIGHT > INFINITY_BITS
    }

    proof fn lemma_rank_orders(a: Float64, b: Float64)
        ensures
            ({
                let ra = if a.bits >= SIGN_WEIGHT {
                    -magnitude(a.bits)
                } else {
                    magnitude(a.bits)
                };
                let rb = if b.bits >= SIGN_WEIGHT {
                    -magnitude(b.bits)
                } else {
                    magnitude(b.bits)
                };
                ra < rb <==> a.scaled() < b.scaled()
            }),
    {
        let ma = magnitude(a.bits);
        let mb = magnitude(b.bits);
        if ma < mb {
            lemma_scaled_magnitude_increases(ma, mb);
        } else if mb < ma {
            lemma_scaled_magnitude_increases(mb, ma);
        }
        if 0 < ma {
            lemma_scaled_magnitude_increases(0, ma);
        }
        if 0 < mb {
            lemma_scaled_magnitude_increases(0, mb);
        }
        assert(scaled_magnitude(0) == 0) by (nonlinear_arith)
            requires
                mantissa(0) == 0,
        ;
    }

    /// `self <= other`.
    pub fn le(self, other: Float64) -> (r: bool)
        ensures
            r == self.at_most(other),
    {
        proof {
            Self::lemma_rank_orders(other, self);
        }
        !self.nan() && !other.nan() && self.rank() <= other.rank()
    }

    /// `self < other`.
    pub fn lt(self, other: Float64) -> (r: bool)
        ensures
            r == self.below(other),
    {
        proof {
            Self::lemma_rank_orders(self, other);
        }
        !self.nan() && !other.nan() && self.rank() < other.rank()
    }

    /// The number of bytes in that many gibibytes.
    pub fn gibibytes_to_bytes(self) -> (r: i64)
        ensures
            r == self.gibibytes(),
    {
        if self.nan() {
            return 0;
        }
        let negative = self.bits >= SIGN_WEIGHT;
        let mag: u64 = self.bits % SIGN_WEIGHT;
        let exp: u64 = if mag >= FRACTION_WEIGHT { mag / FRACTION_WEIGHT - 1 } else { 0 };
        let man: u64 = mag % FRACTION_WEIGHT + if mag >= FRACTION_WEIGHT {
            FRACTION_WEIGHT
        } else {
            0
        };
        let ghost p = pow2(1044) as int;
        proof {
            vstd::arithmetic::power2::lemma_pow2_pos(1044);
            vstd::arithmetic::power2::lemma2_to64();
            vstd::arithmetic::power2::lemma2_to64_rest();
        }
        if exp >= 1044 {
            let shift: u64 = exp - 1044;
            proof {
                vstd::arithmetic::power2::lemma_pow2_adds(shift as nat, 1044);
                let q = man * pow2(shift as nat) as int;
                assert(scaled_magnitude(mag as int) == q * p) by (nonlinear_arith)
                    requires
                        scaled_magnitude(mag as int) == man * pow2(exp as nat) as int,
                        pow2(exp as nat) == pow2(shift as nat) * pow2(1044),
                        q == man * pow2(shift as nat) as int,
                        p == pow2(1044) as int,
                ;
                vstd::arithmetic::div_mod::lemma_div_by_multiple(q, p);
            }
            if shift > 10 {
                proof {
                    let s = pow2(shift as nat) as int;
                    if shift > 11 {
                        vstd::arithmetic::power2::lemma_pow2_strictly_increases(11, shift as nat);
                    }
                    assert(man >= FRACTION_WEIGHT);
                    assert(man * s >= 0x8000_0000_0000_0000int) by (nonlinear_arith)
                        requires
                            man >= 0x10_0000_0000_0000int,
                            s >= 2048,
                    ;
                }
                if negative {
                    i64::MIN
                } else {
                    i64::MAX
                }
            } else {
                proof {
                    let s = pow2(shift as nat) as int;
                    if shift < 10 {
                        vstd::arithmetic::power2::lemma_pow2_strictly_increases(shift as nat, 10);
                    }
                    assert(0 <= man * s < 0x8000_0000_0000_0000int) by (nonlinear_arith)
                        requires
                            0 <= man < 0x20_0000_0000_0000int,
                            0 < s <= 1024,
                    ;
                    vstd::arithmetic::power2::lemma_pow2_pos(shift as nat);
                    vstd::bits::lemma_u64_shl_is_mul(man, shift);
                }
                let bytes: u64 = man << shift;
                if negative {
                    -(bytes as i64)
                } else {
                    bytes as i64
                }
            }
        } else {
            let shift: u64 = 1044 - exp;
            proof {
                let e = pow2(exp as nat) as int;
                let s = pow2(shift as nat) as int;
                vstd::arithmetic::power2::lemma_pow2_pos(exp as nat);
                vstd::arithmetic::power2::lemma_pow2_pos(shift as nat);
                vstd::arithmetic::power2::lemma_pow2_adds(exp as nat, shift as nat);
                assert(p == e * s);
                vstd::arithmetic::div_mod::lemma_div_denominator(man * e, e, s);
                vstd::arithmetic::div_mod::lemma_div_by_multiple(man as int, e);
                assert(scaled_magnitude(mag as int) / p == man as int / s);
            }
            if shift > 53 {
                proof {
                    let s = pow2(shift as nat) as int;
                    vstd::arithmetic::power2::lemma_pow2_strictly_increases(53, shift as nat);
                    assert(man < s);
                    vstd::arithmetic::div_mod::lemma_small_mod(man as nat, s as nat);
                    vstd::arithmetic::div_mod::lemma_basic_div(man as int, s);
                }
                0
            } else {
                proof {
                    vstd::bits::lemma_u64_shr_is_div(man, shift);
                }
                let bytes: u64 = man >> shift;
                proof {
                    let s = pow2(shift as nat) as int;
                    vstd::arithmetic::div_mod::lemma_div_is_ordered_by_denominator(man as int, 1, s);
                }
                if negative {
                    -(bytes as i64)
                } else {
                    bytes as i64
                }
            }
        }
    }
}

/// A number together with the decimal text that it prints as.
#[derive(Debug)]
pub struct Number {
    pub value: Float64,
    pub text: String,
}

/// What a `Number` holds.
pub struct NumberModel {
    pub value: Float64,
    pub text: Seq<char>,
}

impl View for Number {
    type V = NumberModel;

    open spec fn view(&self) -> NumberModel {
        NumberModel { value: self.value, text: self.text@ }
    }
}

/// The view of an optional number.
pub open spec fn opt_number(n: Option<Number>) -> Option<NumberModel> {
    match n {
        Some(n) => Some(n@),
        None => None,
    }
}

impl Number {
    /// A copy of the number.
    pub fn duplicate(&self) -> (r: Number)
        ensures
            r@ == self@,
    {
        Number { value: self.value, text: self.text.clone() }
    }
}

/// A whole number in units of the smallest positive number.
pub open spec fn units(n: int) -> int {
    n * pow2(1074) as int
}

/// The bits of 90.
pub const NINETY: u64 = 0x4056_8000_0000_0000;

/// The bits of -90.
pub const MINUS_NINETY: u64 = 0xc056_8000_0000_0000;

/// The bits of 180.
pub const ONE_EIGHTY: u64 = 0x4066_8000_0000_0000;

/// The bits of -180.
pub const MINUS_ONE_EIGHTY: u64 = 0xc066_8000_0000_0000;

/// The bits of the limits stand for 90 and 180 degrees, either sign.
pub proof fn limits_are_whole_degrees()
    ensures
        (Float64 { bits: NINETY }).scaled() == units(90),
        (Float64 { bits: MINUS_NINETY }).scaled() == units(-90),
        (Float64 { bits: ONE_EIGHTY }).scaled() == units(180),
        (Float64 { bits: MINUS_ONE_EIGHTY }).scaled() == units(-180),
        !(Float64 { bits: NINETY }).is_nan(),
        !(Float64 { bits: MINUS_NINETY }).is_nan(),
        !(Float64 { bits: ONE_EIGHTY }).is_nan(),
        !(Float64 { bits: MINUS_ONE_EIGHTY }).is_nan(),
{
    vstd::arithmetic::power2::lemma2_to64();
    vstd::arithmetic::power2::lemma2_to64_rest();
    vstd::arithmetic::power2::lemma_pow2_adds(1028, 46);
    vstd::arithmetic::power2::lemma_pow2_adds(1029, 45);
    let p = pow2(1074) as int;
    let a = pow2(1028) as int;
    let b = pow2(1029) as int;
    let ninety = mantissa(NINETY as int);
    assert(magnitude(NINETY) == NINETY && magnitude(MINUS_NINETY) == NINETY);
    assert(magnitude(ONE_EIGHTY) == ONE_EIGHTY && magnitude(MINUS_ONE_EIGHTY) == ONE_EIGHTY);
    assert(exponent(NINETY as int) == 1028);
    assert(exponent(ONE_EIGHTY as int) == 1029);
    assert(ninety == 0x16_8000_0000_0000);
    assert(mantissa(ONE_EIGHTY as int) == ninety);
    assert(ninety * a == 90 * p) by (nonlinear_arith)
        requires
            p == a * 0x4000_0000_0000,
            ninety == 0x16_8000_0000_0000,
    ;
    assert(ninety * b == 180 * p) by (nonlinear_arith)
        requires
            p == b * 0x2000_0000_0000,
            ninety == 0x16_8000_0000_0000,
    ;
    assert(-(90 * p) == (-90) * p) by (nonlinear_arith);
    assert(-(180 * p) == (-180) * p) by (nonlinear_arith);
}

impl Float64 {
    /// Whether the value is a number of at most `limit` in either direction.
    pub open spec fn within(self, limit: int) -> bool {
        !self.is_nan() && units(-limit) <= self.scaled() <= units(limit)
    }

    /// Whether the value is a latitude.
    pub fn is_latitude(self) -> (r: bool)
        ensures
            r == self.within(90),
    {
        proof {
            limits_are_whole_degrees();
        }
        (Float64 { bits: MINUS_NINETY }).le(self) && self.le(Float64 { bits: NINETY })
    }

    /// Whether the value is a longitude.
    pub fn is_longitude(self) -> (r: bool)
        ensures
            r == self.within(180),
    {
        proof {
            limits_are_whole_degrees();
        }
        (Float64 { bits: MINUS_ONE_EIGHTY }).le(self) && self.le(Float64 { bits: ONE_EIGHTY })
    }
}

impl Float64 {
    /// A whole number of gibibytes is that many times 2 to the power of 30 bytes.
    pub proof fn whole_gibibytes_are_counted(x: Float64, n: int)
        requires
            0 <= n < 0x2_0000_0000,
            !x.is_nan(),
            x.scaled() == units(n),
        ensures
            x.gibibytes() == n * 1024 * 1024 * 1024,
    {
        let m = magnitude(x.bits);
        let p = pow2(1044) as int;
        vstd::arithmetic::power2::lemma_pow2_pos(1044);
        vstd::arithmetic::power2::lemma_pow2_pos(1074);
        vstd::arithmetic::power2::lemma_pow2_adds(30, 1044);
        vstd::arithmetic::power2::lemma2_to64();
        if m > 0 {
            lemma_scaled_magnitude_increases(0, m);
        }
        assert(scaled_magnitude(0) == 0) by (nonlinear_arith)
            requires
                mantissa(0) == 0,
        ;
        assert(units(n) >= 0) by (nonlinear_arith)
            requires
                n >= 0,
                units(n) == n * pow2(1074) as int,
                pow2(1074) > 0,
        ;
        assert(scaled_magnitude(m) == units(n));
        let b = n * 0x4000_0000;
        assert(units(n) == b * p) by (nonlinear_arith)
            requires
                units(n) == n * pow2(1074) as int,
                pow2(1074) == pow2(30) * pow2(1044),
                pow2(30) == 0x4000_0000,
                p == pow2(1044) as int,
                b == n * 0x4000_0000,
        ;
        vstd::arithmetic::div_mod::lemma_div_by_multiple(b, p);
    }

    /// More memory is never counted as fewer bytes.
    pub proof fn more_memory_is_more_bytes(a: Float64, b: Float64)
        requires
            a.at_most(b),
        ensures
            a.gibibytes() <= b.gibibytes(),
    {
        let ma = magnitude(a.bits);
        let mb = magnitude(b.bits);
        let p = pow2(1044) as int;
        vstd::arithmetic::power2::lemma_pow2_pos(1044);
        if ma > 0 {
            lemma_scaled_magnitude_increases(0, ma);
        }
        if mb > 0 {
            lemma_scaled_magnitude_increases(0, mb);
        }
        assert(scaled_magnitude(0) == 0) by (nonlinear_arith)
            requires
                mantissa(0) == 0,
        ;
        let x = scaled_magnitude(ma);
        let y = scaled_magnitude(mb);
        vstd::arithmetic::div_mod::lemma_div_pos_is_pos(x, p);
        vstd::arithmetic::div_mod::lemma_div_pos_is_pos(y, p);
        if x <= y {
            vstd::arithmetic::div_mod::lemma_div_is_ordered(x, y, p);
        } else {
            vstd::arithmetic::div_mod::lemma_div_is_ordered(y, x, p);
        }
    }
}

} // verus!
