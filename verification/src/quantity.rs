//! A concrete number: a binary64 magnitude (as its bit pattern) paired with
//! its physical dimension. Multiplication and division always succeed and
//! combine the dimensions; addition and subtraction demand equal dimensions.

use crate::dimension::{spec_dim_div, spec_dim_mul, spec_dimensionless, PhysicalQuantity};
use crate::errors::CustomError;
use crate::float_bits::{
    add_bits, div_bits, f64_bits_finite, f64_bits_one, f64_bits_zero, mul_bits, spec_add_bits,
    spec_div_bits, spec_mul_bits, spec_sub_bits, sub_bits,
};
use vstd::prelude::*;

verus! {

/// A magnitude (binary64 bit pattern) with its physical dimension.
#[derive(Debug, Clone, Copy, PartialEq, Eq, Structural)]
pub struct ConcreteNumber {
    pub magnitude_bits: u64,
    pub physical_quantity: PhysicalQuantity,
}

/// Addition: defined only on equal dimensions; the magnitudes add.
pub open spec fn spec_cn_add(a: ConcreteNumber, b: ConcreteNumber) -> Result<
    ConcreteNumber,
    CustomError,
> {
    if a.physical_quantity == b.physical_quantity {
        Ok(
            ConcreteNumber {
                magnitude_bits: spec_add_bits(a.magnitude_bits, b.magnitude_bits),
                physical_quantity: a.physical_quantity,
            },
        )
    } else {
        Err(CustomError::AddingTwoDifferentUnits)
    }
}

/// Subtraction: defined only on equal dimensions; the magnitudes subtract.
pub open spec fn spec_cn_sub(a: ConcreteNumber, b: ConcreteNumber) -> Result<
    ConcreteNumber,
    CustomError,
> {
    if a.physical_quantity == b.physical_quantity {
        Ok(
            ConcreteNumber {
                magnitude_bits: spec_sub_bits(a.magnitude_bits, b.magnitude_bits),
                physical_quantity: a.physical_quantity,
            },
        )
    } else {
        Err(CustomError::SubtractingTwoDifferentUnits)
    }
}

/// Multiplication: magnitudes multiply, dimension exponents add.
pub open spec fn spec_cn_mul(a: ConcreteNumber, b: ConcreteNumber) -> ConcreteNumber {
    ConcreteNumber {
        magnitude_bits: spec_mul_bits(a.magnitude_bits, b.magnitude_bits),
        physical_quantity: spec_dim_mul(a.physical_quantity, b.physical_quantity),
    }
}

/// Division: magnitudes divide, dimension exponents subtract.
pub open spec fn spec_cn_div(a: ConcreteNumber, b: ConcreteNumber) -> ConcreteNumber {
    ConcreteNumber {
        magnitude_bits: spec_div_bits(a.magnitude_bits, b.magnitude_bits),
        physical_quantity: spec_dim_div(a.physical_quantity, b.physical_quantity),
    }
}

impl ConcreteNumber {
    /// Pairs a magnitude bit pattern with a dimension.
    pub fn new(magnitude_bits: u64, physical_quantity: PhysicalQuantity) -> (r: Self)
        ensures
            r == (ConcreteNumber { magnitude_bits, physical_quantity }),
    {
        Self { magnitude_bits, physical_quantity }
    }

    /// Adds two quantities; fails exactly when their dimensions differ.
    pub fn add(self, rhs: Self) -> (r: Result<ConcreteNumber, CustomError>)
        ensures
            r == spec_cn_add(self, rhs),
            self.physical_quantity != rhs.physical_quantity <==> r === Err(
                CustomError::AddingTwoDifferentUnits,
            ),
    {
        if self.physical_quantity != rhs.physical_quantity {
            Err(CustomError::AddingTwoDifferentUnits)
        } else {
            Ok(
                ConcreteNumber::new(
                    add_bits(self.magnitude_bits, rhs.magnitude_bits),
                    self.physical_quantity,
                ),
            )
        }
    }

    /// Subtracts two quantities; fails exactly when their dimensions differ.
    pub fn sub(self, rhs: Self) -> (r: Result<ConcreteNumber, CustomError>)
        ensures
            r == spec_cn_sub(self, rhs),
            self.physical_quantity != rhs.physical_quantity <==> r === Err(
                CustomError::SubtractingTwoDifferentUnits,
            ),
    {
        if self.physical_quantity != rhs.physical_quantity {
            Err(CustomError::SubtractingTwoDifferentUnits)
        } else {
            Ok(
                ConcreteNumber::new(
                    sub_bits(self.magnitude_bits, rhs.magnitude_bits),
                    self.physical_quantity,
                ),
            )
        }
    }

    /// Multiplies two quantities; always succeeds.
    pub fn mul(self, rhs: Self) -> (r: ConcreteNumber)
        ensures
            r == spec_cn_mul(self, rhs),
    {
        ConcreteNumber::new(
            mul_bits(self.magnitude_bits, rhs.magnitude_bits),
            self.physical_quantity.mul(rhs.physical_quantity),
        )
    }

    /// Divides two quantities; always succeeds, with binary64 semantics for a
    /// zero divisor. Dividing a quantity with a finite, non-zero magnitude by
    /// itself yields exactly 1 with the dimensionless vector; an infinite or
    /// NaN magnitude instead divides to NaN.
    pub fn div(self, rhs: Self) -> (r: ConcreteNumber)
        ensures
            r == spec_cn_div(self, rhs),
            self.magnitude_bits == rhs.magnitude_bits && f64_bits_finite(self.magnitude_bits)
                && !f64_bits_zero(self.magnitude_bits) ==> r.magnitude_bits == f64_bits_one(),
            self.physical_quantity == rhs.physical_quantity ==> r.physical_quantity
                == spec_dimensionless(),
    {
        ConcreteNumber::new(
            div_bits(self.magnitude_bits, rhs.magnitude_bits),
            self.physical_quantity.div(rhs.physical_quantity),
        )
    }
}

/// Step-wise construction of a concrete number, starting from a dimensionless
/// zero (whose bit pattern is all zeros).
pub struct ConcreteNumberBuilder {
    pub magnitude_bits: u64,
    pub physical_quantity: PhysicalQuantity,
}

impl ConcreteNumberBuilder {
    /// Starts from dimensionless zero.
    pub fn new() -> (r: Self)
        ensures
            r.magnitude_bits == 0,
            r.physical_quantity == spec_dimensionless(),
    {
        ConcreteNumberBuilder {
            magnitude_bits: 0,
            physical_quantity: PhysicalQuantity::new(0, 0, 0, 0, 0, 0, 0),
        }
    }

    /// Sets the magnitude bit pattern.
    pub fn magnitude(self, magnitude_bits: u64) -> (r: Self)
        ensures
            r.magnitude_bits == magnitude_bits,
            r.physical_quantity == self.physical_quantity,
    {
        ConcreteNumberBuilder { magnitude_bits, ..self }
    }

    /// Sets the dimension.
    pub fn physical_quantity(self, physical_quantity: PhysicalQuantity) -> (r: Self)
        ensures
            r.magnitude_bits == self.magnitude_bits,
            r.physical_quantity == physical_quantity,
    {
        ConcreteNumberBuilder { physical_quantity, ..self }
    }

    /// Finishes the construction.
    pub fn build(self) -> (r: ConcreteNumber)
        ensures
            r == (ConcreteNumber {
                magnitude_bits: self.magnitude_bits,
                physical_quantity: self.physical_quantity,
            }),
    {
        ConcreteNumber {
            magnitude_bits: self.magnitude_bits,
            physical_quantity: self.physical_quantity,
        }
    }
}

} // verus!
