//! Binary64 values as bit patterns.
//!
//! Every floating-point quantity in this library is carried as the `u64` bit
//! pattern of an IEEE-754 binary64 value (the layout `f64::to_bits` gives:
//! sign bit, 11 exponent bits, 52 significand bits). Sign-based operations
//! (negation, absolute value) and order comparisons against non-negative
//! constants are exact bit manipulations and are verified here; inexact
//! arithmetic (addition, subtraction, multiplication, division) is performed
//! by a software implementation of binary64 and only named by this module.

use rustc_apfloat::Float;
use vstd::prelude::*;

verus! {

/// The bit pattern of the binary64 sum of the two operand bit patterns
/// (round to nearest, ties to even).
pub uninterp spec fn add_bits(a: u64, b: u64) -> u64;

/// The bit pattern of the binary64 difference of the two operand bit
/// patterns (round to nearest, ties to even).
pub uninterp spec fn sub_bits(a: u64, b: u64) -> u64;

/// The bit pattern of the binary64 product of the two operand bit patterns
/// (round to nearest, ties to even).
pub uninterp spec fn mul_bits(a: u64, b: u64) -> u64;

/// The bit pattern of the binary64 quotient of the two operand bit patterns
/// (round to nearest, ties to even).
pub uninterp spec fn div_bits(a: u64, b: u64) -> u64;

/// The sign bit of a binary64 value; also the bit pattern of `-0.0`.
pub const SIGN_MASK: u64 = 0x8000_0000_0000_0000;

/// All bits of a binary64 value except the sign bit.
pub const ABS_MASK: u64 = 0x7FFF_FFFF_FFFF_FFFF;

/// The bit pattern of positive infinity. Every pattern strictly above it
/// (with the sign bit cleared) is a NaN.
pub const INF_BITS: u64 = 0x7FF0_0000_0000_0000;

/// The bit pattern of `1.0e8`, the stability threshold: a step is rejected
/// as divergent when the magnitude of a single accumulated temperature delta
/// strictly exceeds this value.
pub const THRESHOLD_BITS: u64 = 0x4197_D784_0000_0000;

/// IEEE-754 negation: flipping the sign bit, which negates every value
/// (including infinities) and preserves NaN payloads.
pub open spec fn neg_bits(b: u64) -> u64 {
    b ^ SIGN_MASK
}

/// IEEE-754 absolute value: clearing the sign bit.
pub open spec fn abs_bits(b: u64) -> u64 {
    b & ABS_MASK
}

/// Whether the value is strictly positive (`> 0.0`). Bit patterns of
/// non-negative binary64 values are ordered as integers, so the strictly
/// positive values are exactly the patterns from the smallest subnormal
/// (pattern `1`) up to positive infinity; everything above is a NaN, for
/// which `> 0.0` is false.
pub open spec fn is_pos_bits(b: u64) -> bool {
    1 <= b && b <= INF_BITS
}

/// Whether a temperature delta trips the stability guard, i.e. whether its
/// absolute value strictly exceeds the threshold `1.0e8`. Since patterns of
/// non-negative values are ordered as integers, this is an integer interval
/// check on the sign-cleared pattern; NaN patterns lie above `INF_BITS` and
/// do not trip the guard, matching `NaN > 1.0e8` being false.
pub open spec fn guard_trips(b: u64) -> bool {
    THRESHOLD_BITS < abs_bits(b) && abs_bits(b) <= INF_BITS
}

/// Negate a binary64 value by flipping its sign bit.
pub fn fp_neg(b: u64) -> (r: u64)
    ensures
        r == neg_bits(b),
{
    b ^ SIGN_MASK
}

/// Whether the value is strictly positive (`> 0.0`); used to validate heat
/// capacities.
pub fn is_pos(b: u64) -> (r: bool)
    ensures
        r == is_pos_bits(b),
{
    1 <= b && b <= INF_BITS
}

/// Whether a temperature delta trips the stability guard
/// (absolute value strictly above `1.0e8`).
pub fn delta_too_large(b: u64) -> (r: bool)
    ensures
        r == guard_trips(b),
{
    let a: u64 = b & ABS_MASK;
    THRESHOLD_BITS < a && a <= INF_BITS
}

/// The bit pattern of the fourth power of a binary64 value, computed by
/// squaring twice, the multiply chain that integer powers lower to.
pub open spec fn pow4_bits(t: u64) -> u64 {
    mul_bits(mul_bits(t, t), mul_bits(t, t))
}

/// Raise a binary64 value to the fourth power by squaring twice.
pub fn pow4(t: u64) -> (r: u64)
    ensures
        r == pow4_bits(t),
{
    let s: u64 = fp_mul(t, t);
    fp_mul(s, s)
}

/// Relies on `rustc_apfloat::ieee::Double`'s `Add` (IEEE-754 binary64
/// addition, round to nearest, ties to even): the result is a function of
/// the two operand bit patterns alone.
#[verifier::external_body]
pub(crate) fn fp_add(a: u64, b: u64) -> (r: u64)
    ensures
        r == add_bits(a, b),
{
    let x = rustc_apfloat::ieee::Double::from_bits(a as u128);
    let y = rustc_apfloat::ieee::Double::from_bits(b as u128);
    (x + y).value.to_bits() as u64
}

/// Relies on `rustc_apfloat::ieee::Double`'s `Sub` (IEEE-754 binary64
/// subtraction, round to nearest, ties to even): the result is a function of
/// the two operand bit patterns alone.
#[verifier::external_body]
pub(crate) fn fp_sub(a: u64, b: u64) -> (r: u64)
    ensures
        r == sub_bits(a, b),
{
    let x = rustc_apfloat::ieee::Double::from_bits(a as u128);
    let y = rustc_apfloat::ieee::Double::from_bits(b as u128);
    (x - y).value.to_bits() as u64
}

/// Relies on `rustc_apfloat::ieee::Double`'s `Mul` (IEEE-754 binary64
/// multiplication, round to nearest, ties to even): the result is a function
/// of the two operand bit patterns alone.
#[verifier::external_body]
pub(crate) fn fp_mul(a: u64, b: u64) -> (r: u64)
    ensures
        r == mul_bits(a, b),
{
    let x = rustc_apfloat::ieee::Double::from_bits(a as u128);
    let y = rustc_apfloat::ieee::Double::from_bits(b as u128);
    (x * y).value.to_bits() as u64
}

/// Relies on `rustc_apfloat::ieee::Double`'s `Div` (IEEE-754 binary64
/// division, round to nearest, ties to even): the result is a function of
/// the two operand bit patterns alone.
#[verifier::external_body]
pub(crate) fn fp_div(a: u64, b: u64) -> (r: u64)
    ensures
        r == div_bits(a, b),
{
    let x = rustc_apfloat::ieee::Double::from_bits(a as u128);
    let y = rustc_apfloat::ieee::Double::from_bits(b as u128);
    (x / y).value.to_bits() as u64
}

} // verus!
