//! Numeric scalars: an unsigned integer, a signed integer, or a binary64
//! float held as its bit pattern.

use vstd::arithmetic::div_mod::*;
use vstd::arithmetic::mul::*;
use vstd::arithmetic::power2::*;
use vstd::bits::*;
use vstd::prelude::*;

verus! {

/// The eleven exponent bits of a binary64 bit pattern.
pub open spec fn float_exponent(bits: u64) -> u64 {
    (bits >> 52) & 0x7ff
}

/// The fifty-two fraction bits of a binary64 bit pattern.
pub open spec fn float_fraction(bits: u64) -> u64 {
    bits & 0xf_ffff_ffff_ffff
}

/// The sign bit of a binary64 bit pattern.
pub open spec fn float_negative(bits: u64) -> bool {
    (bits >> 63) == 1
}

/// A bit pattern is a NaN when its exponent is all ones and its fraction is
/// not zero.
pub open spec fn float_is_nan(bits: u64) -> bool {
    float_exponent(bits) == 0x7ff && float_fraction(bits) != 0
}

/// A bit pattern is an infinity when its exponent is all ones and its
/// fraction is zero.
pub open spec fn float_is_infinite(bits: u64) -> bool {
    float_exponent(bits) == 0x7ff && float_fraction(bits) == 0
}

/// Positive or negative zero.
pub open spec fn float_is_zero(bits: u64) -> bool {
    float_exponent(bits) == 0 && float_fraction(bits) == 0
}

/// The integer significand of a finite bit pattern: the fraction, with the
/// implicit leading one for a normal number.
pub open spec fn float_mantissa(bits: u64) -> nat {
    if float_exponent(bits) == 0 {
        float_fraction(bits) as nat
    } else {
        (float_fraction(bits) + 0x10_0000_0000_0000) as nat
    }
}

/// The power of two by which the significand is scaled.
pub open spec fn float_scale(bits: u64) -> int {
    if float_exponent(bits) == 0 {
        -1074
    } else {
        float_exponent(bits) - 1075
    }
}

/// The magnitude of a finite bit pattern, if that magnitude is an integer.
pub open spec fn float_magnitude(bits: u64) -> Option<nat> {
    let m = float_mantissa(bits);
    let s = float_scale(bits);
    if s >= 0 {
        Some(m * pow2(s as nat))
    } else if m % pow2((-s) as nat) == 0 {
        Some(m / pow2((-s) as nat))
    } else {
        None
    }
}

/// The integer that a bit pattern denotes, if it denotes one. NaN, the
/// infinities and numbers with a fractional part denote none.
pub open spec fn float_as_int(bits: u64) -> Option<int> {
    if float_exponent(bits) == 0x7ff {
        None
    } else {
        match float_magnitude(bits) {
            Some(v) => Some(
                if float_negative(bits) {
                    -(v as int)
                } else {
                    v as int
                },
            ),
            None => None,
        }
    }
}

/// Equality of two floats: every NaN equals every NaN, the two zeros are
/// equal, and otherwise the bit patterns decide.
pub open spec fn float_eq(a: u64, b: u64) -> bool {
    if float_is_nan(a) || float_is_nan(b) {
        float_is_nan(a) && float_is_nan(b)
    } else {
        a == b || (float_is_zero(a) && float_is_zero(b))
    }
}

/// A numeric scalar.
#[derive(Clone, Copy, Debug)]
pub enum Number {
    /// A non-negative integer.
    Unsigned(u64),
    /// An integer that may be negative.
    Signed(i64),
    /// A binary64 float, as its bit pattern.
    Float(u64),
}

/// What the exponent, fraction and sign of a bit pattern can be.
proof fn lemma_float_fields(bits: u64)
    ensures
        float_exponent(bits) <= 0x7ff,
        float_fraction(bits) < 0x10_0000_0000_0000,
        (bits >> 63) == 0 || (bits >> 63) == 1,
{
    assert(((bits >> 52) & 0x7ff) <= 0x7ff) by (bit_vector);
    assert((bits & 0xf_ffff_ffff_ffff) < 0x10_0000_0000_0000) by (bit_vector);
    assert((bits >> 63) == 0 || (bits >> 63) == 1) by (bit_vector);
}

proof fn lemma_pow2_53()
    ensures
        pow2(52) == 0x10_0000_0000_0000,
        pow2(53) == 0x20_0000_0000_0000,
        pow2(11) == 0x800,
        pow2(12) == 0x1000,
        pow2(64) == 0x1_0000_0000_0000_0000,
{
    lemma2_to64();
    lemma2_to64_rest();
}

/// The integer magnitude of a finite float, where it is an integer that fits
/// in sixty-four bits.
fn float_small_magnitude(bits: u64) -> (r: Option<u64>)
    requires
        float_exponent(bits) != 0x7ff,
    ensures
        r == match float_magnitude(bits) {
            Some(v) => if v <= u64::MAX {
                Some(v as u64)
            } else {
                None
            },
            None => None,
        },
{
    let e: u64 = (bits >> 52) & 0x7ff;
    let f: u64 = bits & 0xf_ffff_ffff_ffff;
    proof {
        lemma_float_fields(bits);
        lemma_pow2_53();
    }
    let m: u64 = if e == 0 {
        f
    } else {
        f + 0x10_0000_0000_0000
    };
    let x: u64 = if e == 0 {
        1
    } else {
        e
    };
    assert(m == float_mantissa(bits));
    assert(x - 1075 == float_scale(bits));
    if x >= 1075 {
        let k: u64 = x - 1075;
        assert(m >= 0x10_0000_0000_0000);
        if k <= 11 {
            proof {
                if k < 11 {
                    lemma_pow2_strictly_increases(k as nat, 11);
                }
                assert(m * pow2(k as nat) <= 0x1f_ffff_ffff_ffff * 0x800) by (nonlinear_arith)
                    requires
                        m <= 0x1f_ffff_ffff_ffff,
                        pow2(k as nat) <= 0x800,
                ;
                lemma_u64_shl_is_mul(m, k);
            }
            Some(m << k)
        } else {
            proof {
                if k > 12 {
                    lemma_pow2_strictly_increases(12, k as nat);
                }
                assert(m * pow2(k as nat) >= 0x10_0000_0000_0000 * 0x1000) by (nonlinear_arith)
                    requires
                        m >= 0x10_0000_0000_0000,
                        pow2(k as nat) >= 0x1000,
                ;
            }
            None
        }
    } else {
        let s: u64 = 1075 - x;
        if s >= 53 {
            proof {
                if s > 53 {
                    lemma_pow2_strictly_increases(53, s as nat);
                }
                lemma_small_mod(m as nat, pow2(s as nat));
                lemma_pow2_pos(s as nat);
                if m == 0 {
                    assert(0nat / pow2(s as nat) == 0) by {
                        lemma_div_basics_2(pow2(s as nat) as int);
                    }
                }
            }
            if m == 0 {
                Some(0)
            } else {
                None
            }
        } else {
            let q: u64 = m >> s;
            proof {
                lemma_u64_shr_is_div(m, s);
                lemma_pow2_pos(s as nat);
                lemma_pow2_strictly_increases(s as nat, 53);
                lemma_fundamental_div_mod(m as int, pow2(s as nat) as int);
                assert(q == m as nat / pow2(s as nat));
                assert(q * pow2(s as nat) <= m) by {
                    lemma_mod_bound(m as int, pow2(s as nat) as int);
                    lemma_mul_is_commutative(q as int, pow2(s as nat) as int);
                }
                lemma_u64_shl_is_mul(q, s);
                lemma_mul_is_commutative(q as int, pow2(s as nat) as int);
            }
            if (q << s) == m {
                Some(q)
            } else {
                None
            }
        }
    }
}

impl Number {
    /// The number `n`.
    pub fn from_u64(n: u64) -> (r: Number)
        ensures
            r == Number::Unsigned(n),
    {
        Number::Unsigned(n)
    }

    /// The number `n`; a non-negative `n` is held as an unsigned integer.
    pub fn from_i64(n: i64) -> (r: Number)
        ensures
            r == (if n >= 0 {
                Number::Unsigned(n as u64)
            } else {
                Number::Signed(n)
            }),
            r.spec_as_int() == Some(n as int),
    {
        if n >= 0 {
            Number::Unsigned(n as u64)
        } else {
            Number::Signed(n)
        }
    }

    /// The float with the bit pattern `bits`.
    pub fn from_float_bits(bits: u64) -> (r: Number)
        ensures
            r == Number::Float(bits),
    {
        Number::Float(bits)
    }

    /// The integer that the number denotes, if it denotes one.
    pub open spec fn spec_as_int(&self) -> Option<int> {
        match *self {
            Number::Unsigned(u) => Some(u as int),
            Number::Signed(i) => Some(i as int),
            Number::Float(bits) => float_as_int(bits),
        }
    }

    /// Two numbers are equal when they denote the same number, whichever way
    /// each of them is held; two floats are compared as floats, so that any
    /// NaN equals any NaN.
    pub open spec fn spec_same(&self, other: &Number) -> bool {
        match (*self, *other) {
            (Number::Float(a), Number::Float(b)) => float_eq(a, b),
            _ => self.spec_as_int() is Some && self.spec_as_int() == other.spec_as_int(),
        }
    }

    /// True if the number is held as a float.
    pub fn is_f64(&self) -> (b: bool)
        ensures
            b == (*self is Float),
    {
        match self {
            Number::Float(_) => true,
            _ => false,
        }
    }

    /// True if the number is held as an integer that fits in `i64`.
    pub fn is_i64(&self) -> (b: bool)
        ensures
            b == (self.spec_as_i64() is Some),
    {
        self.as_i64().is_some()
    }

    /// True if the number is held as an integer that fits in `u64`.
    pub fn is_u64(&self) -> (b: bool)
        ensures
            b == (self.spec_as_u64() is Some),
    {
        self.as_u64().is_some()
    }

    /// The value of [`Number::as_i64`].
    pub open spec fn spec_as_i64(&self) -> Option<i64> {
        match *self {
            Number::Unsigned(u) => if u <= i64::MAX as u64 {
                Some(u as i64)
            } else {
                None
            },
            Number::Signed(i) => Some(i),
            Number::Float(_) => None,
        }
    }

    /// The number as an `i64`, if it is held as an integer in that range.
    pub fn as_i64(&self) -> (r: Option<i64>)
        ensures
            r == self.spec_as_i64(),
    {
        match *self {
            Number::Unsigned(u) => if u <= i64::MAX as u64 {
                Some(u as i64)
            } else {
                None
            },
            Number::Signed(i) => Some(i),
            Number::Float(_) => None,
        }
    }

    /// The value of [`Number::as_u64`].
    pub open spec fn spec_as_u64(&self) -> Option<u64> {
        match *self {
            Number::Unsigned(u) => Some(u),
            Number::Signed(i) => if i >= 0 {
                Some(i as u64)
            } else {
                None
            },
            Number::Float(_) => None,
        }
    }

    /// The number as a `u64`, if it is held as an integer in that range.
    pub fn as_u64(&self) -> (r: Option<u64>)
        ensures
            r == self.spec_as_u64(),
    {
        match *self {
            Number::Unsigned(u) => Some(u),
            Number::Signed(i) => if i >= 0 {
                Some(i as u64)
            } else {
                None
            },
            Number::Float(_) => None,
        }
    }

    /// The bit pattern of a number that is held as a float.
    pub fn float_bits(&self) -> (r: Option<u64>)
        ensures
            r == (match *self {
                Number::Float(bits) => Some(bits),
                _ => None::<u64>,
            }),
    {
        match *self {
            Number::Float(bits) => Some(bits),
            _ => None,
        }
    }

    /// True if the number is a float NaN.
    pub fn is_nan(&self) -> (b: bool)
        ensures
            b == (*self matches Number::Float(bits) && float_is_nan(bits)),
    {
        match *self {
            Number::Float(bits) => ((bits >> 52) & 0x7ff) == 0x7ff && (bits & 0xf_ffff_ffff_ffff)
                != 0,
            _ => false,
        }
    }

    /// True if the number is a float infinity.
    pub fn is_infinite(&self) -> (b: bool)
        ensures
            b == (*self matches Number::Float(bits) && float_is_infinite(bits)),
    {
        match *self {
            Number::Float(bits) => ((bits >> 52) & 0x7ff) == 0x7ff && (bits & 0xf_ffff_ffff_ffff)
                == 0,
            _ => false,
        }
    }

    /// True if the number is neither a NaN nor an infinity.
    pub fn is_finite(&self) -> (b: bool)
        ensures
            b == !(*self matches Number::Float(bits) && float_exponent(bits) == 0x7ff),
    {
        match *self {
            Number::Float(bits) => ((bits >> 52) & 0x7ff) != 0x7ff,
            _ => true,
        }
    }

    /// Compares an integer with a float.
    fn int_equals_float(x: i128, bits: u64) -> (b: bool)
        requires
            -0x8000_0000_0000_0000 <= x <= 0xffff_ffff_ffff_ffff,
        ensures
            b == (float_as_int(bits) == Some(x as int)),
    {
        if ((bits >> 52) & 0x7ff) == 0x7ff {
            false
        } else {
            let negative = (bits >> 63) == 1;
            match float_small_magnitude(bits) {
                Some(v) => if negative {
                    x == -(v as i128)
                } else {
                    x == v as i128
                },
                None => false,
            }
        }
    }

    /// Compares two numbers by what they denote.
    pub fn same(&self, other: &Number) -> (b: bool)
        ensures
            b == self.spec_same(other),
    {
        match (*self, *other) {
            (Number::Float(a), Number::Float(b)) => {
                let a_nan = ((a >> 52) & 0x7ff) == 0x7ff && (a & 0xf_ffff_ffff_ffff) != 0;
                let b_nan = ((b >> 52) & 0x7ff) == 0x7ff && (b & 0xf_ffff_ffff_ffff) != 0;
                if a_nan || b_nan {
                    a_nan && b_nan
                } else {
                    let a_zero = ((a >> 52) & 0x7ff) == 0 && (a & 0xf_ffff_ffff_ffff) == 0;
                    let b_zero = ((b >> 52) & 0x7ff) == 0 && (b & 0xf_ffff_ffff_ffff) == 0;
                    a == b || (a_zero && b_zero)
                }
            },
            (Number::Float(a), Number::Unsigned(u)) => Number::int_equals_float(u as i128, a),
            (Number::Float(a), Number::Signed(i)) => Number::int_equals_float(i as i128, a),
            (Number::Unsigned(u), Number::Float(b)) => Number::int_equals_float(u as i128, b),
            (Number::Signed(i), Number::Float(b)) => Number::int_equals_float(i as i128, b),
            (Number::Unsigned(u), Number::Unsigned(v)) => u == v,
            (Number::Signed(i), Number::Signed(j)) => i == j,
            (Number::Unsigned(u), Number::Signed(i)) => u as i128 == i as i128,
            (Number::Signed(i), Number::Unsigned(u)) => u as i128 == i as i128,
        }
    }
}


impl PartialEq for Number {
    fn eq(&self, other: &Number) -> (r: bool) {
        self.same(other)
    }
}

impl vstd::std_specs::cmp::PartialEqSpecImpl for Number {
    open spec fn obeys_eq_spec() -> bool {
        true
    }

    open spec fn eq_spec(&self, other: &Number) -> bool {
        self.spec_same(other)
    }
}

} // verus!
