//! The unit table: each recognized symbol's dimension vector, and the scaling
//! of a vector by an explicit exponent. It covers the seven SI base units,
//! the SI derived units with special names, the spelled-out "ohm", and the
//! word "dimensionless" for the identity.

use crate::dimension::PhysicalQuantity;
use crate::scan::span_eq;
use vstd::prelude::*;
use vstd::wrapping::i64_specs;

verus! {

/// The dimension vector of a unit symbol with exponent 1, or `None` for a
/// symbol outside the table.
pub open spec fn spec_base_vector(sym: Seq<char>) -> Option<PhysicalQuantity> {
    if sym == "s"@ {
        Some(spec_vec7(1, 0, 0, 0, 0, 0, 0))
    } else if sym == "m"@ {
        Some(spec_vec7(0, 1, 0, 0, 0, 0, 0))
    } else if sym == "kg"@ {
        Some(spec_vec7(0, 0, 1, 0, 0, 0, 0))
    } else if sym == "A"@ {
        Some(spec_vec7(0, 0, 0, 1, 0, 0, 0))
    } else if sym == "K"@ {
        Some(spec_vec7(0, 0, 0, 0, 1, 0, 0))
    } else if sym == "mol"@ {
        Some(spec_vec7(0, 0, 0, 0, 0, 1, 0))
    } else if sym == "cd"@ {
        Some(spec_vec7(0, 0, 0, 0, 0, 0, 1))
    } else if sym == "Hz"@ {
        Some(spec_vec7(-1i64, 0, 0, 0, 0, 0, 0))
    } else if sym == "N"@ {
        Some(spec_vec7(-2i64, 1, 1, 0, 0, 0, 0))
    } else if sym == "Pa"@ {
        Some(spec_vec7(-2i64, -1i64, 1, 0, 0, 0, 0))
    } else if sym == "J"@ {
        Some(spec_vec7(-2i64, 2, 1, 0, 0, 0, 0))
    } else if sym == "W"@ {
        Some(spec_vec7(-3i64, 2, 1, 0, 0, 0, 0))
    } else if sym == "C"@ {
        Some(spec_vec7(1, 0, 0, 1, 0, 0, 0))
    } else if sym == "V"@ {
        Some(spec_vec7(-3i64, 2, 1, -1i64, 0, 0, 0))
    } else if sym == "Wb"@ {
        Some(spec_vec7(-2i64, 2, 1, -1i64, 0, 0, 0))
    } else if sym == "T"@ {
        Some(spec_vec7(-2i64, 0, 1, -1i64, 0, 0, 0))
    } else if sym == "F"@ {
        Some(spec_vec7(4, -2i64, -1i64, 2, 0, 0, 0))
    } else if sym == "ohm"@ || sym == "Ω"@ {
        Some(spec_vec7(-3i64, 2, 1, -2i64, 0, 0, 0))
    } else if sym == "S"@ {
        Some(spec_vec7(3, -2i64, -1i64, 2, 0, 0, 0))
    } else if sym == "H"@ {
        Some(spec_vec7(-2i64, 2, 1, -2i64, 0, 0, 0))
    } else if sym == "kat"@ {
        Some(spec_vec7(-1i64, 0, 0, 0, 0, 1, 0))
    } else if sym == "dimensionless"@ {
        Some(spec_vec7(0, 0, 0, 0, 0, 0, 0))
    } else {
        None
    }
}

/// Shorthand for a dimension vector written out by its seven exponents.
pub open spec fn spec_vec7(
    time: i64,
    length: i64,
    mass: i64,
    current: i64,
    temperature: i64,
    amount_of_substance: i64,
    luminous_intensity: i64,
) -> PhysicalQuantity {
    PhysicalQuantity {
        time,
        length,
        mass,
        current,
        temperature,
        amount_of_substance,
        luminous_intensity,
    }
}

/// Every exponent of the vector scaled by `i`, wrapping at the `i64` boundary.
pub open spec fn spec_scale(v: PhysicalQuantity, i: i64) -> PhysicalQuantity {
    PhysicalQuantity {
        time: i64_specs::wrapping_mul(v.time, i),
        length: i64_specs::wrapping_mul(v.length, i),
        mass: i64_specs::wrapping_mul(v.mass, i),
        current: i64_specs::wrapping_mul(v.current, i),
        temperature: i64_specs::wrapping_mul(v.temperature, i),
        amount_of_substance: i64_specs::wrapping_mul(v.amount_of_substance, i),
        luminous_intensity: i64_specs::wrapping_mul(v.luminous_intensity, i),
    }
}

/// The dimension vector of a unit token: the symbol's vector with every
/// exponent scaled by the token's exponent.
pub open spec fn spec_unit_vector(sym: Seq<char>, i: i64) -> Option<PhysicalQuantity> {
    match spec_base_vector(sym) {
        Some(v) => Some(spec_scale(v, i)),
        None => None,
    }
}

fn scale(v: PhysicalQuantity, i: i64) -> (r: PhysicalQuantity)
    ensures
        r == spec_scale(v, i),
{
    PhysicalQuantity::new(
        v.time.wrapping_mul(i),
        v.length.wrapping_mul(i),
        v.mass.wrapping_mul(i),
        v.current.wrapping_mul(i),
        v.temperature.wrapping_mul(i),
        v.amount_of_substance.wrapping_mul(i),
        v.luminous_intensity.wrapping_mul(i),
    )
}

fn base_vector(s: &str, start: usize, end: usize) -> (r: Option<PhysicalQuantity>)
    requires
        start <= end <= s@.len(),
    ensures
        r == spec_base_vector(s@.subrange(start as int, end as int)),
{
    if span_eq(s, start, end, "s") {
        Some(PhysicalQuantity::new(1, 0, 0, 0, 0, 0, 0))
    } else if span_eq(s, start, end, "m") {
        Some(PhysicalQuantity::new(0, 1, 0, 0, 0, 0, 0))
    } else if span_eq(s, start, end, "kg") {
        Some(PhysicalQuantity::new(0, 0, 1, 0, 0, 0, 0))
    } else if span_eq(s, start, end, "A") {
        Some(PhysicalQuantity::new(0, 0, 0, 1, 0, 0, 0))
    } else if span_eq(s, start, end, "K") {
        Some(PhysicalQuantity::new(0, 0, 0, 0, 1, 0, 0))
    } else if span_eq(s, start, end, "mol") {
        Some(PhysicalQuantity::new(0, 0, 0, 0, 0, 1, 0))
    } else if span_eq(s, start, end, "cd") {
        Some(PhysicalQuantity::new(0, 0, 0, 0, 0, 0, 1))
    } else if span_eq(s, start, end, "Hz") {
        Some(PhysicalQuantity::new(-1, 0, 0, 0, 0, 0, 0))
    } else if span_eq(s, start, end, "N") {
        Some(PhysicalQuantity::new(-2, 1, 1, 0, 0, 0, 0))
    } else if span_eq(s, start, end, "Pa") {
        Some(PhysicalQuantity::new(-2, -1, 1, 0, 0, 0, 0))
    } else if span_eq(s, start, end, "J") {
        Some(PhysicalQuantity::new(-2, 2, 1, 0, 0, 0, 0))
    } else if span_eq(s, start, end, "W") {
        Some(PhysicalQuantity::new(-3, 2, 1, 0, 0, 0, 0))
    } else if span_eq(s, start, end, "C") {
        Some(PhysicalQuantity::new(1, 0, 0, 1, 0, 0, 0))
    } else if span_eq(s, start, end, "V") {
        Some(PhysicalQuantity::new(-3, 2, 1, -1, 0, 0, 0))
    } else if span_eq(s, start, end, "Wb") {
        Some(PhysicalQuantity::new(-2, 2, 1, -1, 0, 0, 0))
    } else if span_eq(s, start, end, "T") {
        Some(PhysicalQuantity::new(-2, 0, 1, -1, 0, 0, 0))
    } else if span_eq(s, start, end, "F") {
        Some(PhysicalQuantity::new(4, -2, -1, 2, 0, 0, 0))
    } else if span_eq(s, start, end, "ohm") || span_eq(s, start, end, "Ω") {
        Some(PhysicalQuantity::new(-3, 2, 1, -2, 0, 0, 0))
    } else if span_eq(s, start, end, "S") {
        Some(PhysicalQuantity::new(3, -2, -1, 2, 0, 0, 0))
    } else if span_eq(s, start, end, "H") {
        Some(PhysicalQuantity::new(-2, 2, 1, -2, 0, 0, 0))
    } else if span_eq(s, start, end, "kat") {
        Some(PhysicalQuantity::new(-1, 0, 0, 0, 0, 1, 0))
    } else if span_eq(s, start, end, "dimensionless") {
        Some(PhysicalQuantity::new(0, 0, 0, 0, 0, 0, 0))
    } else {
        None
    }
}

/// Looks up the symbol at `s[start..end)` and scales its vector by the
/// exponent `i`; `None` exactly for a symbol outside the table.
pub(crate) fn unit_as_physical_quantity(s: &str, start: usize, end: usize, i: i64) -> (r: Option<
    PhysicalQuantity,
>)
    requires
        start <= end <= s@.len(),
    ensures
        r == spec_unit_vector(s@.subrange(start as int, end as int), i),
{
    match base_vector(s, start, end) {
        Some(v) => Some(scale(v, i)),
        None => None,
    }
}

} // verus!
