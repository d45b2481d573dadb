//! Bit-level model of IEEE 754 double-precision values.
//!
//! The classifier's planetary parameters are physically `f64` quantities,
//! but the rules this library proves about them (equality that merges NaN
//! with NaN and infinity with infinity, and the total order used for
//! sorting) depend only on the 64-bit patterns of those values.  This
//! module therefore works on the raw bit patterns (`f64::to_bits`), and
//! defines classification, IEEE comparison and the total order over them.

use vstd::prelude::*;
use core::cmp::Ordering;

verus! {

/// Mask of the 11 exponent bits, shifted down.
pub const EXPONENT_MASK: u64 = 0x7ff;
/// Mask of the 52 fraction (mantissa) bits.
pub const FRACTION_MASK: u64 = 0xf_ffff_ffff_ffff;
/// Mask of everything but the sign bit.
pub const MAGNITUDE_MASK: u64 = 0x7fff_ffff_ffff_ffff;

/// The biased exponent field of a double's bit pattern.
pub open spec fn exponent_field(x: u64) -> u64 {
    (x >> 52) & EXPONENT_MASK
}

/// The fraction (mantissa) field of a double's bit pattern.
pub open spec fn fraction_field(x: u64) -> u64 {
    x & FRACTION_MASK
}

/// Whether the sign bit is set (a negative value, counting -0.0 and -NaN).
pub open spec fn sign_field_set(x: u64) -> bool {
    (x >> 63) == 1
}

/// The bit pattern with the sign bit cleared: the encoding of the value's
/// absolute magnitude. For non-negative doubles, larger magnitude bits
/// encode larger values.
pub open spec fn magnitude_field(x: u64) -> u64 {
    x & MAGNITUDE_MASK
}

/// A NaN: exponent field all ones and a non-zero fraction.
pub open spec fn is_nan_bits(x: u64) -> bool {
    exponent_field(x) == EXPONENT_MASK && fraction_field(x) != 0
}

/// An infinity of either sign: exponent field all ones and a zero fraction.
pub open spec fn is_infinite_bits(x: u64) -> bool {
    exponent_field(x) == EXPONENT_MASK && fraction_field(x) == 0
}

/// A finite value: any exponent field other than all ones.
pub open spec fn is_finite_bits(x: u64) -> bool {
    exponent_field(x) != EXPONENT_MASK
}

/// A zero of either sign.
pub open spec fn is_zero_bits(x: u64) -> bool {
    magnitude_field(x) == 0
}

/// IEEE 754 equality (`a == b` on doubles): never true for NaN, and the
/// only distinct bit patterns that compare equal are +0.0 and -0.0.
pub open spec fn float_eq_bits(a: u64, b: u64) -> bool {
    &&& !is_nan_bits(a)
    &&& !is_nan_bits(b)
    &&& (a == b || (is_zero_bits(a) && is_zero_bits(b)))
}

/// IEEE 754 `a < b` on doubles: false whenever either side is NaN,
/// otherwise sign-magnitude comparison of the encodings.
pub open spec fn float_lt_bits(a: u64, b: u64) -> bool {
    &&& !is_nan_bits(a)
    &&& !is_nan_bits(b)
    &&& !(is_zero_bits(a) && is_zero_bits(b))
    &&& if sign_field_set(a) != sign_field_set(b) {
        sign_field_set(a)
    } else if !sign_field_set(a) {
        magnitude_field(a) < magnitude_field(b)
    } else {
        magnitude_field(a) > magnitude_field(b)
    }
}

/// IEEE 754 `a >= b` on doubles.
pub open spec fn float_ge_bits(a: u64, b: u64) -> bool {
    float_eq_bits(a, b) || float_lt_bits(b, a)
}

/// The tolerant equality used by `Planet`: exact IEEE equality for finite
/// values, and any two NaNs, or any two infinities regardless of sign,
/// count as equal. Mixed categories are never equal.
pub open spec fn sorta_equal_bits(a: u64, b: u64) -> bool {
    if is_finite_bits(a) && is_finite_bits(b) {
        !(float_lt_bits(a, b) || float_lt_bits(b, a))
    } else if is_nan_bits(a) && is_nan_bits(b) {
        true
    } else if is_infinite_bits(a) && is_infinite_bits(b) {
        true
    } else {
        false
    }
}

/// The total order on doubles that `Planet`'s ordering uses: the standard
/// IEEE order extended so that all NaNs are equal to each other and
/// greater than every other value (the order of ordered_float's
/// `OrderedFloat`, whose `cmp` returns `Less` when `!nan(a) && !(a >= b)`,
/// `Greater` when `!nan(b) && !(b >= a)`, and `Equal` otherwise).
pub open spec fn total_cmp_bits(a: u64, b: u64) -> Ordering {
    if !is_nan_bits(a) && !float_ge_bits(a, b) {
        Ordering::Less
    } else if !is_nan_bits(b) && !float_ge_bits(b, a) {
        Ordering::Greater
    } else {
        Ordering::Equal
    }
}

/// Whether this bit pattern encodes a NaN.
pub fn is_nan(x: u64) -> (r: bool)
    ensures
        r == is_nan_bits(x),
{
    ((x >> 52) & EXPONENT_MASK) == EXPONENT_MASK && (x & FRACTION_MASK) != 0
}

/// Whether this bit pattern encodes an infinity of either sign.
pub fn is_infinite(x: u64) -> (r: bool)
    ensures
        r == is_infinite_bits(x),
{
    ((x >> 52) & EXPONENT_MASK) == EXPONENT_MASK && (x & FRACTION_MASK) == 0
}

/// Whether this bit pattern encodes a finite value.
pub fn is_finite(x: u64) -> (r: bool)
    ensures
        r == is_finite_bits(x),
{
    ((x >> 52) & EXPONENT_MASK) != EXPONENT_MASK
}

/// IEEE 754 `<` on the encoded values.
pub fn float_lt(a: u64, b: u64) -> (r: bool)
    ensures
        r == float_lt_bits(a, b),
{
    let a_mag: u64 = a & MAGNITUDE_MASK;
    let b_mag: u64 = b & MAGNITUDE_MASK;
    let a_neg: bool = (a >> 63) == 1;
    let b_neg: bool = (b >> 63) == 1;
    if is_nan(a) || is_nan(b) {
        false
    } else if a_mag == 0 && b_mag == 0 {
        false
    } else if a_neg != b_neg {
        a_neg
    } else if !a_neg {
        a_mag < b_mag
    } else {
        a_mag > b_mag
    }
}

/// The tolerant equality used by `Planet` (see [`sorta_equal_bits`]).
pub fn sorta_equal(a: u64, b: u64) -> (r: bool)
    ensures
        r == sorta_equal_bits(a, b),
{
    if is_finite(a) && is_finite(b) {
        !(float_lt(a, b) || float_lt(b, a))
    } else if is_nan(a) && is_nan(b) {
        true
    } else if is_infinite(a) && is_infinite(b) {
        true
    } else {
        false
    }
}

/// The total order on encoded doubles (see [`total_cmp_bits`]).
pub fn total_cmp(a: u64, b: u64) -> (r: Ordering)
    ensures
        r == total_cmp_bits(a, b),
{
    let a_nan = is_nan(a);
    let b_nan = is_nan(b);
    let eq = !a_nan && !b_nan && (a == b || ((a & MAGNITUDE_MASK) == 0 && (b & MAGNITUDE_MASK) == 0));
    if !a_nan && !(eq || float_lt(b, a)) {
        Ordering::Less
    } else if !b_nan && !(eq || float_lt(a, b)) {
        Ordering::Greater
    } else {
        Ordering::Equal
    }
}

/// Two NaN bit patterns always count as tolerantly equal.
pub proof fn lemma_sorta_equal_nan(a: u64, b: u64)
    requires
        is_nan_bits(a),
        is_nan_bits(b),
    ensures
        sorta_equal_bits(a, b),
{
}

/// Two infinite bit patterns count as tolerantly equal even when their
/// signs differ: +inf and -inf are deliberately merged.
pub proof fn lemma_sorta_equal_infinite(a: u64, b: u64)
    requires
        is_infinite_bits(a),
        is_infinite_bits(b),
    ensures
        sorta_equal_bits(a, b),
{
}

/// Tolerant equality is reflexive: every value, NaN and infinities
/// included, is tolerantly equal to itself.
pub proof fn lemma_sorta_equal_reflexive(a: u64)
    ensures
        sorta_equal_bits(a, a),
{
}

} // verus!
