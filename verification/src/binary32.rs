//! A model of IEEE-754 single-precision numbers over their bit patterns.
//!
//! Every finite single-precision number is a whole multiple of `2^-149`, the
//! smallest positive subnormal. [`units`] gives that multiple as a mathematical
//! integer, and the relations below are stated over it. The two infinities get
//! the multiples `2^277` and `-2^277`, which lie beyond every finite number, so
//! that ordering needs no special case for them.

use vstd::prelude::*;
use vstd::arithmetic::power2::*;

verus! {

/// The pattern of positive zero.
pub const ZERO: u32 = 0;

/// The pattern of the number one.
pub const ONE: u32 = 0x3f80_0000;

/// The pattern of the number minus one.
pub const NEG_ONE: u32 = 0xbf80_0000;

/// The pattern of positive infinity.
pub const INFINITY: u32 = 0x7f80_0000;

/// The pattern of negative infinity.
pub const NEG_INFINITY: u32 = 0xff80_0000;

/// Whether the sign bit of `bits` is set.
pub open spec fn is_negative(bits: u32) -> bool {
    bits >= 0x8000_0000
}

/// The pattern without its sign bit.
pub open spec fn abs_bits(bits: u32) -> nat {
    if bits >= 0x8000_0000 {
        (bits - 0x8000_0000) as nat
    } else {
        bits as nat
    }
}

/// The biased exponent field, between 0 and 255.
pub open spec fn exponent(bits: u32) -> nat {
    abs_bits(bits) / 0x80_0000
}

/// The fraction field, below `2^23`.
pub open spec fn fraction(bits: u32) -> nat {
    abs_bits(bits) % 0x80_0000
}

/// Whether `bits` is not a number: all exponent bits set and a fraction other
/// than zero.
pub open spec fn nan(bits: u32) -> bool {
    exponent(bits) == 255 && fraction(bits) != 0
}

/// The significand as a whole number: the fraction, with the implicit leading
/// bit unless the number is subnormal or zero.
pub open spec fn significand(bits: u32) -> nat {
    if exponent(bits) == 0 {
        fraction(bits)
    } else {
        0x80_0000 + fraction(bits)
    }
}

/// The power of two by which the significand is multiplied to give the
/// magnitude in units of `2^-149`.
pub open spec fn shift(bits: u32) -> nat {
    if exponent(bits) == 0 {
        0
    } else {
        (exponent(bits) - 1) as nat
    }
}

/// The magnitude of the number in units of `2^-149`.
pub open spec fn abs_units(bits: u32) -> nat {
    significand(bits) * pow2(shift(bits))
}

/// The number in units of `2^-149`. Meaningful for every pattern that is a
/// number; an infinity counts as `2^277` units.
pub open spec fn units(bits: u32) -> int {
    if is_negative(bits) {
        -(abs_units(bits) as int)
    } else {
        abs_units(bits) as int
    }
}

/// Equality of two numbers: neither is a NaN and they have the same value.
/// The two zeros are equal; a NaN equals nothing, itself included.
pub open spec fn equal(a: u32, b: u32) -> bool {
    &&& !nan(a)
    &&& !nan(b)
    &&& units(a) == units(b)
}

/// Strict order of two numbers: neither is a NaN and the first has the smaller
/// value.
pub open spec fn less(a: u32, b: u32) -> bool {
    &&& !nan(a)
    &&& !nan(b)
    &&& units(a) < units(b)
}

/// Order of two numbers: neither is a NaN and the first has no larger value
/// than the second.
pub open spec fn less_eq(a: u32, b: u32) -> bool {
    &&& !nan(a)
    &&& !nan(b)
    &&& units(a) <= units(b)
}

/// What clamping `value` to the interval from `min` to `max` gives: the bound
/// that `value` lies beyond, else `value` itself, a NaN included.
pub open spec fn clamped(value: u32, min: u32, max: u32) -> u32 {
    if less(value, min) {
        min
    } else if less(max, value) {
        max
    } else {
        value
    }
}

/// The pattern with its sign bit cleared.
fn clear_sign(bits: u32) -> (r: u32)
    ensures
        r == abs_bits(bits),
{
    if bits >= 0x8000_0000 {
        bits - 0x8000_0000
    } else {
        bits
    }
}

/// Tells whether `bits` is not a number.
pub fn is_nan(bits: u32) -> (r: bool)
    ensures
        r == nan(bits),
{
    clear_sign(bits) > 0x7f80_0000
}

/// Tells whether two numbers are equal.
pub fn eq(a: u32, b: u32) -> (r: bool)
    ensures
        r == equal(a, b),
{
    if is_nan(a) || is_nan(b) {
        false
    } else {
        let ma: u32 = clear_sign(a);
        let mb: u32 = clear_sign(b);
        proof {
            lemma_abs_units_order(a, b);
            lemma_abs_units_zero(a);
            lemma_abs_units_zero(b);
        }
        a == b || (ma == 0 && mb == 0)
    }
}

/// Tells whether the first number is smaller than the second.
pub fn lt(a: u32, b: u32) -> (r: bool)
    ensures
        r == less(a, b),
{
    if is_nan(a) || is_nan(b) {
        false
    } else {
        let ma: u32 = clear_sign(a);
        let mb: u32 = clear_sign(b);
        proof {
            lemma_abs_units_order(a, b);
            lemma_abs_units_zero(a);
            lemma_abs_units_zero(b);
        }
        if a >= 0x8000_0000 {
            if b >= 0x8000_0000 {
                mb < ma
            } else {
                ma != 0 || mb != 0
            }
        } else {
            b < 0x8000_0000 && ma < mb
        }
    }
}

/// Tells whether the first number is no larger than the second.
pub fn le(a: u32, b: u32) -> (r: bool)
    ensures
        r == less_eq(a, b),
{
    if is_nan(a) || is_nan(b) {
        false
    } else {
        let ma: u32 = clear_sign(a);
        let mb: u32 = clear_sign(b);
        proof {
            lemma_abs_units_order(a, b);
            lemma_abs_units_zero(a);
            lemma_abs_units_zero(b);
        }
        if a >= 0x8000_0000 {
            b < 0x8000_0000 || mb <= ma
        } else if b >= 0x8000_0000 {
            ma == 0 && mb == 0
        } else {
            ma <= mb
        }
    }
}

/// Restricts `value` to the interval from `min` to `max`. A NaN is handed back
/// as it is, and so is a zero of either sign that lies within the interval.
pub fn clamp(value: u32, min: u32, max: u32) -> (r: u32)
    requires
        less_eq(min, max),
    ensures
        r == clamped(value, min, max),
        nan(value) ==> r == value,
        !nan(value) ==> less_eq(min, r) && less_eq(r, max),
{
    if lt(value, min) {
        min
    } else if lt(max, value) {
        max
    } else {
        value
    }
}

/// A pattern with the larger magnitude bits stands for the larger magnitude:
/// the encoding keeps the order of the numbers it encodes.
pub proof fn lemma_abs_units_increasing(a: u32, b: u32)
    requires
        abs_bits(a) < abs_bits(b),
    ensures
        abs_units(a) < abs_units(b),
{
    let ea = exponent(a);
    let eb = exponent(b);
    let sa = significand(a);
    let sb = significand(b);
    let pa = pow2(shift(a));
    let pb = pow2(shift(b));
    lemma_pow2_pos(shift(a));
    if ea == eb {
        assert(sa * pa < sb * pa) by (nonlinear_arith)
            requires
                sa < sb,
                pa > 0,
        ;
    } else {
        assert(ea < eb);
        // Below the next binade: `abs_units(a) < 2^23 * 2^ea`.
        let next = pow2(ea);
        if ea == 0 {
            lemma2_to64();
            assert(sa * pa < 0x80_0000 * next) by (nonlinear_arith)
                requires
                    sa < 0x80_0000,
                    pa == 1,
                    next == 1,
            ;
        } else {
            lemma_pow2_unfold(ea);
            assert(sa * pa < 0x80_0000 * next) by (nonlinear_arith)
                requires
                    sa < 0x100_0000,
                    pa > 0,
                    next == 2 * pa,
            ;
        }
        // At least the start of its own binade: `2^23 * 2^(eb - 1) <= abs_units(b)`.
        if ea < shift(b) {
            lemma_pow2_strictly_increases(ea, shift(b));
        }
        assert(0x80_0000 * next <= sb * pb) by (nonlinear_arith)
            requires
                0x80_0000 <= sb,
                0 < next <= pb,
        ;
    }
}

/// Magnitudes compare as their patterns do.
pub proof fn lemma_abs_units_order(a: u32, b: u32)
    ensures
        abs_bits(a) < abs_bits(b) <==> abs_units(a) < abs_units(b),
        abs_bits(a) == abs_bits(b) <==> abs_units(a) == abs_units(b),
{
    if abs_bits(a) < abs_bits(b) {
        lemma_abs_units_increasing(a, b);
    } else if abs_bits(b) < abs_bits(a) {
        lemma_abs_units_increasing(b, a);
    }
}

/// The values of the named patterns, and their order: one is `2^149` units,
/// an infinity `2^277`.
pub proof fn lemma_units_of_constants()
    ensures
        units(ZERO) == 0,
        units(ONE) == pow2(149),
        units(NEG_ONE) == -pow2(149),
        units(INFINITY) == pow2(277),
        units(NEG_INFINITY) == -pow2(277),
        less(NEG_INFINITY, NEG_ONE),
        less(NEG_ONE, ZERO),
        less(ZERO, ONE),
        less(ONE, INFINITY),
{
    lemma2_to64();
    lemma_abs_units_zero(ZERO);
    lemma_pow2_adds(23, 126);
    lemma_pow2_adds(23, 254);
    lemma_pow2_pos(149);
    lemma_pow2_strictly_increases(149, 277);
    assert(exponent(ONE) == 127 && fraction(ONE) == 0);
    assert(exponent(NEG_ONE) == 127 && fraction(NEG_ONE) == 0);
    assert(exponent(INFINITY) == 255 && fraction(INFINITY) == 0);
    assert(exponent(NEG_INFINITY) == 255 && fraction(NEG_INFINITY) == 0);
}

/// Only the two zeros have the magnitude zero.
pub proof fn lemma_abs_units_zero(bits: u32)
    ensures
        abs_units(bits) == 0 <==> abs_bits(bits) == 0,
{
    let p = pow2(shift(ZERO));
    assert(significand(ZERO) * p == 0) by (nonlinear_arith)
        requires
            significand(ZERO) == 0,
    ;
    lemma_abs_units_order(bits, ZERO);
}

} // verus!
