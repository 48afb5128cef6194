//! Laws of numeric equality: it is an equivalence relation, every NaN equals
//! every NaN, and an integer equals the float that denotes it.

use crate::number::{
    float_as_int, float_eq, float_exponent, float_fraction, float_is_nan, float_is_zero,
    float_magnitude, float_mantissa, float_negative, float_scale, Number,
};
use vstd::arithmetic::div_mod::{lemma_div_basics_2, lemma_fundamental_div_mod, lemma_small_mod};
use vstd::arithmetic::power2::{
    lemma2_to64, lemma2_to64_rest, lemma_pow2_adds, lemma_pow2_pos, lemma_pow2_strictly_increases,
    pow2,
};
use vstd::prelude::*;

verus! {

/// Two floats that are NaN are equal, whatever their bit patterns.
pub proof fn law_nan_equals_nan(a: u64, b: u64)
    requires
        float_is_nan(a),
        float_is_nan(b),
    ensures
        Number::Float(a).spec_same(&Number::Float(b)),
{
}

/// An integer equals the float that denotes the same number, whichever of
/// the two stands first.
pub proof fn law_integer_equals_its_float(n: Number, bits: u64)
    requires
        !(n is Float),
        float_as_int(bits) == n.spec_as_int(),
    ensures
        n.spec_same(&Number::Float(bits)),
        Number::Float(bits).spec_same(&n),
{
}

/// Equality of numbers does not depend on the order of its operands.
pub proof fn law_number_equality_is_symmetric(a: Number, b: Number)
    ensures
        a.spec_same(&b) == b.spec_same(&a),
{
}

/// A bit pattern is determined by its sign, its exponent and its fraction.
proof fn lemma_fields_determine_bits(a: u64, b: u64)
    requires
        float_negative(a) == float_negative(b),
        float_exponent(a) == float_exponent(b),
        float_fraction(a) == float_fraction(b),
    ensures
        a == b,
{
    assert(((a >> 63) == 1) == ((b >> 63) == 1) && ((a >> 52) & 0x7ff) == ((b >> 52) & 0x7ff) && (a
        & 0xf_ffff_ffff_ffff) == (b & 0xf_ffff_ffff_ffff) ==> a == b) by (bit_vector);
}

/// What the fields of a bit pattern can be.
proof fn lemma_field_bounds(bits: u64)
    ensures
        float_exponent(bits) <= 0x7ff,
        float_fraction(bits) < 0x10_0000_0000_0000,
{
    assert(((bits >> 52) & 0x7ff) <= 0x7ff) by (bit_vector);
    assert((bits & 0xf_ffff_ffff_ffff) < 0x10_0000_0000_0000) by (bit_vector);
}

/// A float whose magnitude is zero is one of the two zeros, and the zeros
/// have the magnitude zero.
proof fn lemma_zero_magnitude(bits: u64)
    requires
        float_exponent(bits) != 0x7ff,
    ensures
        float_magnitude(bits) == Some(0nat) <==> float_is_zero(bits),
{
    lemma_field_bounds(bits);
    lemma2_to64();
    lemma2_to64_rest();
    let m = float_mantissa(bits);
    let s = float_scale(bits);
    if s >= 0 {
        lemma_pow2_pos(s as nat);
        assert(m >= 0x10_0000_0000_0000);
        assert(m * pow2(s as nat) > 0) by (nonlinear_arith)
            requires
                m > 0,
                pow2(s as nat) > 0,
        ;
    } else {
        let p = pow2((-s) as nat);
        lemma_pow2_pos((-s) as nat);
        if m == 0 {
            lemma_small_mod(0, p);
            lemma_div_basics_2(p as int);
        } else if m % p == 0 {
            lemma_fundamental_div_mod(m as int, p as int);
            assert(m / p != 0) by (nonlinear_arith)
                requires
                    m == p * (m / p) + 0,
                    m > 0,
            ;
        }
    }
}

/// The integer magnitude of a float that is not zero lies between two
/// neighbouring powers of two that its exponent fixes.
proof fn lemma_magnitude_range(bits: u64, v: nat)
    requires
        float_exponent(bits) != 0x7ff,
        float_magnitude(bits) == Some(v),
        v > 0,
    ensures
        float_exponent(bits) != 0,
        52 + float_scale(bits) >= 0,
        pow2((52 + float_scale(bits)) as nat) <= v < pow2((53 + float_scale(bits)) as nat),
{
    lemma_field_bounds(bits);
    lemma2_to64();
    lemma2_to64_rest();
    let m = float_mantissa(bits);
    let s = float_scale(bits);
    if float_exponent(bits) == 0 {
        let p = pow2(1074);
        lemma_pow2_strictly_increases(52, 1074);
        lemma_small_mod(m, p);
        lemma_div_basics_2(p as int);
        assert(false);
    }
    assert(0x10_0000_0000_0000 <= m < 0x20_0000_0000_0000);
    if s >= 0 {
        let p = pow2(s as nat);
        lemma_pow2_pos(s as nat);
        lemma_pow2_adds(52, s as nat);
        lemma_pow2_adds(53, s as nat);
        assert(pow2(52) * p <= m * p < pow2(53) * p) by (nonlinear_arith)
            requires
                pow2(52) <= m < pow2(53),
                p > 0,
        ;
    } else {
        let k = (-s) as nat;
        let p = pow2(k);
        lemma_pow2_pos(k);
        lemma_fundamental_div_mod(m as int, p as int);
        assert(m == p * v);
        if k > 52 {
            lemma_pow2_strictly_increases(52, k);
            if k > 53 {
                lemma_pow2_strictly_increases(53, k);
            }
            assert(p * v >= p) by (nonlinear_arith)
                requires
                    v >= 1,
                    p > 0,
            ;
            assert(false);
        }
        lemma_pow2_adds((52 - k) as nat, k);
        lemma_pow2_adds((53 - k) as nat, k);
        let lo = pow2((52 - k) as nat);
        let hi = pow2((53 - k) as nat);
        assert(lo <= v < hi) by (nonlinear_arith)
            requires
                lo * p <= p * v < hi * p,
                p > 0,
        ;
    }
}

/// A number lies between at most one pair of neighbouring powers of two.
proof fn lemma_one_binade(v: nat, a: nat, b: nat)
    requires
        pow2(a) <= v < pow2(a + 1),
        pow2(b) <= v < pow2(b + 1),
    ensures
        a == b,
{
    if a < b {
        if a + 1 < b {
            lemma_pow2_strictly_increases(a + 1, b);
        }
    } else if b < a {
        if b + 1 < a {
            lemma_pow2_strictly_increases(b + 1, a);
        }
    }
}

/// Two floats that denote the same integer are equal as floats.
pub proof fn law_integral_floats_are_unique(a: u64, b: u64)
    requires
        float_as_int(a) is Some,
        float_as_int(a) == float_as_int(b),
    ensures
        float_eq(a, b),
{
    lemma_field_bounds(a);
    lemma_field_bounds(b);
    let va = float_magnitude(a)->0;
    let vb = float_magnitude(b)->0;
    lemma_zero_magnitude(a);
    lemma_zero_magnitude(b);
    if va == 0 || vb == 0 {
        assert(va == 0 && vb == 0);
    } else {
        assert(va == vb);
        assert(float_negative(a) == float_negative(b));
        lemma_magnitude_range(a, va);
        lemma_magnitude_range(b, vb);
        let sa = float_scale(a);
        let sb = float_scale(b);
        lemma_one_binade(va, (52 + sa) as nat, (52 + sb) as nat);
        assert(sa == sb);
        assert(float_exponent(a) == float_exponent(b));
        let ma = float_mantissa(a);
        let mb = float_mantissa(b);
        if sa >= 0 {
            let p = pow2(sa as nat);
            lemma_pow2_pos(sa as nat);
            assert(ma == mb) by (nonlinear_arith)
                requires
                    ma * p == mb * p,
                    p > 0,
            ;
        } else {
            let p = pow2((-sa) as nat);
            lemma_pow2_pos((-sa) as nat);
            lemma_fundamental_div_mod(ma as int, p as int);
            lemma_fundamental_div_mod(mb as int, p as int);
        }
        assert(float_fraction(a) == float_fraction(b));
        lemma_fields_determine_bits(a, b);
    }
}

/// Every number equals itself.
pub proof fn law_number_equality_is_reflexive(a: Number)
    ensures
        a.spec_same(&a),
{
}

/// If a number equals a second one and that equals a third, the first equals
/// the third.
pub proof fn law_number_equality_is_transitive(a: Number, b: Number, c: Number)
    requires
        a.spec_same(&b),
        b.spec_same(&c),
    ensures
        a.spec_same(&c),
{
    match (a, b, c) {
        (Number::Float(x), Number::Float(y), Number::Float(z)) => {},
        (Number::Float(x), Number::Float(y), _) => {
            // x and y are equal as floats and y denotes an integer
            if x != y {
                lemma_zero_magnitude(x);
                lemma_zero_magnitude(y);
                lemma_field_bounds(x);
                lemma_field_bounds(y);
            }
        },
        (_, Number::Float(y), Number::Float(z)) => {
            if y != z {
                lemma_zero_magnitude(y);
                lemma_zero_magnitude(z);
                lemma_field_bounds(y);
                lemma_field_bounds(z);
            }
        },
        (Number::Float(x), _, Number::Float(z)) => {
            law_integral_floats_are_unique(x, z);
        },
        _ => {},
    }
}

} // verus!
