//! The binary64 magnitude, handled purely as its IEEE-754 bit pattern.
//!
//! The value read from a literal, and the result of each arithmetic
//! operation, are deterministic functions of the operand bit patterns alone;
//! here each gets an uninterpreted name, and a trusted wrapper ties the name
//! to the outside routine that computes it.

use crate::scan::is_float_token;
use rustc_apfloat::Float;
use vstd::prelude::*;

verus! {

/// The bit pattern of the binary64 value denoted by a float literal.
pub uninterp spec fn float_bits_of(s: Seq<char>) -> u64;

/// The bit pattern of the IEEE-754 binary64 sum of two bit patterns.
pub uninterp spec fn spec_add_bits(a: u64, b: u64) -> u64;

/// The bit pattern of the IEEE-754 binary64 difference of two bit patterns.
pub uninterp spec fn spec_sub_bits(a: u64, b: u64) -> u64;

/// The bit pattern of the IEEE-754 binary64 product of two bit patterns.
pub uninterp spec fn spec_mul_bits(a: u64, b: u64) -> u64;

/// The bit pattern of the IEEE-754 binary64 quotient of two bit patterns.
pub uninterp spec fn spec_div_bits(a: u64, b: u64) -> u64;

/// A bit pattern whose exponent field is not all ones: a finite binary64,
/// neither an infinity nor a NaN.
pub open spec fn f64_bits_finite(a: u64) -> bool {
    (a >> 52) & 0x7FF != 0x7FF
}

/// The bit pattern of positive or negative zero.
pub open spec fn f64_bits_zero(a: u64) -> bool {
    a & 0x7FFF_FFFF_FFFF_FFFF == 0
}

/// The bit pattern of binary64 1.0.
pub open spec fn f64_bits_one() -> u64 {
    0x3FF0_0000_0000_0000
}

/// Relies on nom's `number::complete::double`: on a string that is exactly one
/// float literal it consumes the whole string and returns the binary64 value
/// the literal denotes, a function of the characters alone.
#[verifier::external_body]
pub(crate) fn parse_float_bits(s: &str) -> (r: u64)
    requires
        is_float_token(s@),
    ensures
        r == float_bits_of(s@),
{
    let parsed: nom::IResult<&str, _> = nom::combinator::all_consuming(
        nom::number::complete::double,
    )(s);
    match parsed {
        Ok((_, v)) => v.to_bits(),
        Err(_) => 0,
    }
}

/// Relies on rustc_apfloat's binary64 addition, rounding to nearest even: a
/// function of the two operand bit patterns alone.
#[verifier::external_body]
pub(crate) fn add_bits(a: u64, b: u64) -> (r: u64)
    ensures
        r == spec_add_bits(a, b),
{
    let x = rustc_apfloat::ieee::Double::from_bits(a as u128);
    let y = rustc_apfloat::ieee::Double::from_bits(b as u128);
    (x + y).value.to_bits() as u64
}

/// Relies on rustc_apfloat's binary64 subtraction, rounding to nearest even: a
/// function of the two operand bit patterns alone.
#[verifier::external_body]
pub(crate) fn sub_bits(a: u64, b: u64) -> (r: u64)
    ensures
        r == spec_sub_bits(a, b),
{
    let x = rustc_apfloat::ieee::Double::from_bits(a as u128);
    let y = rustc_apfloat::ieee::Double::from_bits(b as u128);
    (x - y).value.to_bits() as u64
}

/// Relies on rustc_apfloat's binary64 multiplication, rounding to nearest
/// even: a function of the two operand bit patterns alone.
#[verifier::external_body]
pub(crate) fn mul_bits(a: u64, b: u64) -> (r: u64)
    ensures
        r == spec_mul_bits(a, b),
{
    let x = rustc_apfloat::ieee::Double::from_bits(a as u128);
    let y = rustc_apfloat::ieee::Double::from_bits(b as u128);
    (x * y).value.to_bits() as u64
}

/// Relies on rustc_apfloat's binary64 division, rounding to nearest even: a
/// function of the two operand bit patterns alone. Division is correctly
/// rounded, so a finite non-zero value divided by itself — an exact,
/// representable quotient — is exactly 1.0.
#[verifier::external_body]
pub(crate) fn div_bits(a: u64, b: u64) -> (r: u64)
    ensures
        r == spec_div_bits(a, b),
        a == b && f64_bits_finite(a) && !f64_bits_zero(a) ==> r == f64_bits_one(),
{
    let x = rustc_apfloat::ieee::Double::from_bits(a as u128);
    let y = rustc_apfloat::ieee::Double::from_bits(b as u128);
    (x / y).value.to_bits() as u64
}

} // verus!
