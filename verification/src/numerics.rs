//! Arithmetic on IEEE-754 double-precision bit patterns.
//!
//! A Number value carries the 64-bit pattern of a double. The four
//! binary operators are software IEEE-754 arithmetic on those patterns,
//! performed by `rustc_apfloat` and named here by uninterpreted spec
//! functions: each is a pure function of its two operand patterns.
//! Negation is the IEEE-754 sign-bit flip and is implemented and
//! verified directly.

use vstd::prelude::*;

verus! {

/// The bit pattern of the IEEE-754 double sum `left + right`
/// (round to nearest, ties to even).
pub uninterp spec fn add_bits(left: u64, right: u64) -> u64;

/// The bit pattern of the IEEE-754 double difference `left - right`.
pub uninterp spec fn sub_bits(left: u64, right: u64) -> u64;

/// The bit pattern of the IEEE-754 double product `left * right`.
pub uninterp spec fn mul_bits(left: u64, right: u64) -> u64;

/// The bit pattern of the IEEE-754 double quotient `left / right`
/// (division by zero yields an infinity or NaN pattern, never a fault).
pub uninterp spec fn div_bits(left: u64, right: u64) -> u64;

/// The sign bit of an IEEE-754 double bit pattern.
pub const SIGN_BIT: u64 = 0x8000_0000_0000_0000;

/// The bit pattern of the IEEE-754 negation of `operand`: the same
/// pattern with the sign bit flipped.
pub open spec fn negate_bits(operand: u64) -> u64 {
    operand ^ SIGN_BIT
}

/// Relies on rustc_apfloat::ieee::Double: software IEEE-754 binary64
/// addition of the two bit patterns, a function of its arguments alone.
#[verifier::external_body]
pub fn add_numbers(left: u64, right: u64) -> (r: u64)
    ensures
        r == add_bits(left, right),
{
    let a = <rustc_apfloat::ieee::Double as rustc_apfloat::Float>::from_bits(left as u128);
    let b = <rustc_apfloat::ieee::Double as rustc_apfloat::Float>::from_bits(right as u128);
    rustc_apfloat::Float::to_bits((a + b).value) as u64
}

/// Relies on rustc_apfloat::ieee::Double: software IEEE-754 binary64
/// subtraction of the two bit patterns, a function of its arguments alone.
#[verifier::external_body]
pub fn subtract_numbers(left: u64, right: u64) -> (r: u64)
    ensures
        r == sub_bits(left, right),
{
    let a = <rustc_apfloat::ieee::Double as rustc_apfloat::Float>::from_bits(left as u128);
    let b = <rustc_apfloat::ieee::Double as rustc_apfloat::Float>::from_bits(right as u128);
    rustc_apfloat::Float::to_bits((a - b).value) as u64
}

/// Relies on rustc_apfloat::ieee::Double: software IEEE-754 binary64
/// multiplication of the two bit patterns, a function of its arguments alone.
#[verifier::external_body]
pub fn multiply_numbers(left: u64, right: u64) -> (r: u64)
    ensures
        r == mul_bits(left, right),
{
    let a = <rustc_apfloat::ieee::Double as rustc_apfloat::Float>::from_bits(left as u128);
    let b = <rustc_apfloat::ieee::Double as rustc_apfloat::Float>::from_bits(right as u128);
    rustc_apfloat::Float::to_bits((a * b).value) as u64
}

/// Relies on rustc_apfloat::ieee::Double: software IEEE-754 binary64
/// division of the two bit patterns, a function of its arguments alone;
/// by IEEE-754, division by zero produces an infinity or NaN pattern.
#[verifier::external_body]
pub fn divide_numbers(left: u64, right: u64) -> (r: u64)
    ensures
        r == div_bits(left, right),
{
    let a = <rustc_apfloat::ieee::Double as rustc_apfloat::Float>::from_bits(left as u128);
    let b = <rustc_apfloat::ieee::Double as rustc_apfloat::Float>::from_bits(right as u128);
    rustc_apfloat::Float::to_bits((a / b).value) as u64
}

/// IEEE-754 negation of a double bit pattern: flips the sign bit.
pub fn negate_number(operand: u64) -> (r: u64)
    ensures
        r == negate_bits(operand),
{
    operand ^ SIGN_BIT
}

} // verus!
