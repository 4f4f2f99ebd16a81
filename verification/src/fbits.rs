//! Scalar lane arithmetic on binary32 bit patterns.
//!
//! A lane is a `u32` holding the IEEE-754 binary32 encoding of one
//! single-precision value. Sign flips are exact bit operations and are
//! verified; rounded addition and multiplication are reached through trusted
//! wrappers around a software implementation of binary32 arithmetic, and are
//! named by the uninterpreted functions [`f32_add`] and [`f32_mul`].

use vstd::prelude::*;
use rustc_apfloat::Float;

verus! {

/// The sign bit of a binary32 bit pattern.
pub const SIGN_BIT: u32 = 0x8000_0000;

/// Bit pattern of the binary32 value one.
pub const ONE_BITS: u32 = 0x3F80_0000;

/// Bit pattern of the binary32 value two.
pub const TWO_BITS: u32 = 0x4000_0000;

/// The lane's bit pattern with the sign bit cleared.
pub open spec fn abs_bits(a: u32) -> u32 {
    if a >= SIGN_BIT {
        (a - SIGN_BIT) as u32
    } else {
        a
    }
}

/// The lane encodes a zero (of either sign).
pub open spec fn is_zero_bits(a: u32) -> bool {
    a == 0 || a == SIGN_BIT
}

/// The lane encodes a NaN.
pub open spec fn is_nan_bits(a: u32) -> bool {
    abs_bits(a) > 0x7F80_0000
}

/// The lane encodes a finite value: a zero, a subnormal or a normal number.
pub open spec fn is_finite_bits(a: u32) -> bool {
    abs_bits(a) < 0x7F80_0000
}

/// The lane encodes a finite value other than minus zero. On such lanes
/// binary32 sums and products with the identity element are exact, with no
/// sign-of-zero or NaN corner.
pub open spec fn is_clean_bits(a: u32) -> bool {
    is_finite_bits(a) && a != SIGN_BIT
}

/// The lane `a` with its sign flipped: binary32 negation is exactly a flip of
/// the sign bit.
pub open spec fn flip_sign(a: u32) -> u32 {
    if a >= SIGN_BIT {
        (a - SIGN_BIT) as u32
    } else {
        (a + SIGN_BIT) as u32
    }
}

/// The binary32 sum of the lanes `a` and `b`, rounded to nearest, ties to
/// even, as a bit pattern.
pub uninterp spec fn f32_add(a: u32, b: u32) -> u32;

/// The binary32 product of the lanes `a` and `b`, rounded to nearest, ties to
/// even, as a bit pattern.
pub uninterp spec fn f32_mul(a: u32, b: u32) -> u32;

/// The binary32 difference of the lanes `a` and `b`: IEEE-754 subtraction is
/// addition of the operand with its sign flipped.
pub open spec fn f32_sub(a: u32, b: u32) -> u32 {
    f32_add(a, flip_sign(b))
}

/// The identities of binary32 multiplication that the algebra's unit laws
/// lean on: multiplying a non-NaN value by one returns it unchanged, and
/// multiplying a zero by a finite value yields a zero.
pub open spec fn mul_fact(a: u32, b: u32, r: u32) -> bool {
    &&& (b == ONE_BITS && !is_nan_bits(a) ==> r == a)
    &&& (a == ONE_BITS && !is_nan_bits(b) ==> r == b)
    &&& (is_zero_bits(a) && is_finite_bits(b) ==> is_zero_bits(r))
    &&& (is_zero_bits(b) && is_finite_bits(a) ==> is_zero_bits(r))
}

/// The identities of binary32 addition that the algebra's unit laws lean on:
/// adding a zero to a non-NaN value other than minus zero returns it
/// unchanged, and the sum of two zeros is a zero.
pub open spec fn add_fact(a: u32, b: u32, r: u32) -> bool {
    &&& (is_zero_bits(a) && !is_nan_bits(b) && b != SIGN_BIT ==> r == b)
    &&& (is_zero_bits(b) && !is_nan_bits(a) && a != SIGN_BIT ==> r == a)
    &&& (is_zero_bits(a) && is_zero_bits(b) ==> is_zero_bits(r))
}

/// The identities of binary32 subtraction that follow from [`add_fact`]:
/// subtracting a zero from a non-NaN value other than minus zero returns it
/// unchanged, and the difference of two zeros is a zero.
pub open spec fn sub_fact(a: u32, b: u32, r: u32) -> bool {
    &&& (is_zero_bits(b) && !is_nan_bits(a) && a != SIGN_BIT ==> r == a)
    &&& (is_zero_bits(a) && is_zero_bits(b) ==> is_zero_bits(r))
}

/// Relies on `rustc_apfloat::ieee::Single`'s `core::ops::Add` impl: the
/// IEEE-754 binary32 sum, rounded to nearest with ties to even, a function of
/// the two operand bit patterns alone. The stated identities are IEEE-754's:
/// a zero added to any non-NaN value other than minus zero leaves it
/// unchanged, and two zeros sum to a zero.
#[verifier::external_body]
pub(crate) fn lane_add(a: u32, b: u32) -> (r: u32)
    ensures
        r == f32_add(a, b),
        add_fact(a, b, r),
{
    let x = rustc_apfloat::ieee::Single::from_bits(a as u128);
    let y = rustc_apfloat::ieee::Single::from_bits(b as u128);
    (x + y).value.to_bits() as u32
}

/// Relies on `rustc_apfloat::ieee::Single`'s `core::ops::Mul` impl: the
/// IEEE-754 binary32 product, rounded to nearest with ties to even, a
/// function of the two operand bit patterns alone. The stated identities are
/// IEEE-754's: one is the multiplicative identity on non-NaN values, and a
/// zero times a finite value is a zero.
#[verifier::external_body]
pub(crate) fn lane_mul(a: u32, b: u32) -> (r: u32)
    ensures
        r == f32_mul(a, b),
        mul_fact(a, b, r),
{
    let x = rustc_apfloat::ieee::Single::from_bits(a as u128);
    let y = rustc_apfloat::ieee::Single::from_bits(b as u128);
    (x * y).value.to_bits() as u32
}

/// Flips the sign of one lane, an exact bit operation.
pub(crate) fn lane_flip_sign(a: u32) -> (r: u32)
    ensures
        r == flip_sign(a),
{
    if a >= SIGN_BIT {
        a - SIGN_BIT
    } else {
        a + SIGN_BIT
    }
}

/// Subtracts one lane from another: the sum with the subtrahend's sign
/// flipped, exactly as IEEE-754 defines subtraction.
pub(crate) fn lane_sub(a: u32, b: u32) -> (r: u32)
    ensures
        r == f32_sub(a, b),
        sub_fact(a, b, r),
{
    lane_add(a, lane_flip_sign(b))
}

} // verus!
