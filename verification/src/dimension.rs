//! The dimension vector: one signed exponent for each of the seven SI base
//! dimensions, with multiplicative-group semantics. Exponents add on multiply
//! and subtract on divide; the arithmetic wraps at the `i64` boundary, so the
//! operations are total and the group laws hold without side conditions.

use vstd::prelude::*;
use vstd::wrapping::i64_specs;

verus! {

/// A physical dimension: the exponent of each SI base dimension.
#[derive(PartialEq, Eq, Structural, Clone, Copy, Debug)]
pub struct PhysicalQuantity {
    pub time: i64,
    pub length: i64,
    pub mass: i64,
    pub current: i64,
    pub temperature: i64,
    pub amount_of_substance: i64,
    pub luminous_intensity: i64,
}

/// The all-zero, dimensionless vector: the group identity.
pub open spec fn spec_dimensionless() -> PhysicalQuantity {
    PhysicalQuantity {
        time: 0,
        length: 0,
        mass: 0,
        current: 0,
        temperature: 0,
        amount_of_substance: 0,
        luminous_intensity: 0,
    }
}

/// Component-wise wrapping sum: the dimension of a product of quantities.
pub open spec fn spec_dim_mul(a: PhysicalQuantity, b: PhysicalQuantity) -> PhysicalQuantity {
    PhysicalQuantity {
        time: i64_specs::wrapping_add(a.time, b.time),
        length: i64_specs::wrapping_add(a.length, b.length),
        mass: i64_specs::wrapping_add(a.mass, b.mass),
        current: i64_specs::wrapping_add(a.current, b.current),
        temperature: i64_specs::wrapping_add(a.temperature, b.temperature),
        amount_of_substance: i64_specs::wrapping_add(a.amount_of_substance, b.amount_of_substance),
        luminous_intensity: i64_specs::wrapping_add(a.luminous_intensity, b.luminous_intensity),
    }
}

/// Component-wise wrapping difference: the dimension of a quotient.
pub open spec fn spec_dim_div(a: PhysicalQuantity, b: PhysicalQuantity) -> PhysicalQuantity {
    PhysicalQuantity {
        time: i64_specs::wrapping_sub(a.time, b.time),
        length: i64_specs::wrapping_sub(a.length, b.length),
        mass: i64_specs::wrapping_sub(a.mass, b.mass),
        current: i64_specs::wrapping_sub(a.current, b.current),
        temperature: i64_specs::wrapping_sub(a.temperature, b.temperature),
        amount_of_substance: i64_specs::wrapping_sub(a.amount_of_substance, b.amount_of_substance),
        luminous_intensity: i64_specs::wrapping_sub(a.luminous_intensity, b.luminous_intensity),
    }
}

impl PhysicalQuantity {
    /// Builds a dimension vector from its seven exponents.
    pub fn new(
        time: i64,
        length: i64,
        mass: i64,
        current: i64,
        temperature: i64,
        amount_of_substance: i64,
        luminous_intensity: i64,
    ) -> (r: Self)
        ensures
            r == (PhysicalQuantity {
                time,
                length,
                mass,
                current,
                temperature,
                amount_of_substance,
                luminous_intensity,
            }),
    {
        Self { time, length, mass, current, temperature, amount_of_substance, luminous_intensity }
    }

    /// The dimension of a product: exponents add component-wise (wrapping).
    pub fn mul(self, rhs: Self) -> (r: Self)
        ensures
            r == spec_dim_mul(self, rhs),
    {
        PhysicalQuantity::new(
            self.time.wrapping_add(rhs.time),
            self.length.wrapping_add(rhs.length),
            self.mass.wrapping_add(rhs.mass),
            self.current.wrapping_add(rhs.current),
            self.temperature.wrapping_add(rhs.temperature),
            self.amount_of_substance.wrapping_add(rhs.amount_of_substance),
            self.luminous_intensity.wrapping_add(rhs.luminous_intensity),
        )
    }

    /// The dimension of a quotient: exponents subtract component-wise (wrapping).
    pub fn div(self, rhs: Self) -> (r: Self)
        ensures
            r == spec_dim_div(self, rhs),
    {
        PhysicalQuantity::new(
            self.time.wrapping_sub(rhs.time),
            self.length.wrapping_sub(rhs.length),
            self.mass.wrapping_sub(rhs.mass),
            self.current.wrapping_sub(rhs.current),
            self.temperature.wrapping_sub(rhs.temperature),
            self.amount_of_substance.wrapping_sub(rhs.amount_of_substance),
            self.luminous_intensity.wrapping_sub(rhs.luminous_intensity),
        )
    }
}

/// Step-wise construction of a dimension vector, starting from the
/// dimensionless identity.
pub struct PhysicalQuantityBuilder {
    pub time: i64,
    pub length: i64,
    pub mass: i64,
    pub current: i64,
    pub temperature: i64,
    pub amount_of_substance: i64,
    pub luminous_intensity: i64,
}

impl PhysicalQuantityBuilder {
    /// Starts from the dimensionless vector.
    pub fn new() -> (r: Self)
        ensures
            r.time == 0,
            r.length == 0,
            r.mass == 0,
            r.current == 0,
            r.temperature == 0,
            r.amount_of_substance == 0,
            r.luminous_intensity == 0,
    {
        PhysicalQuantityBuilder {
            time: 0,
            length: 0,
            mass: 0,
            current: 0,
            temperature: 0,
            amount_of_substance: 0,
            luminous_intensity: 0,
        }
    }

    /// Sets the time exponent.
    pub fn time(self, time: i64) -> (r: Self)
        ensures
            r == (PhysicalQuantityBuilder { time, ..self }),
    {
        PhysicalQuantityBuilder { time, ..self }
    }

    /// Sets the length exponent.
    pub fn length(self, length: i64) -> (r: Self)
        ensures
            r == (PhysicalQuantityBuilder { length, ..self }),
    {
        PhysicalQuantityBuilder { length, ..self }
    }

    /// Sets the mass exponent.
    pub fn mass(self, mass: i64) -> (r: Self)
        ensures
            r == (PhysicalQuantityBuilder { mass, ..self }),
    {
        PhysicalQuantityBuilder { mass, ..self }
    }

    /// Sets the electric-current exponent.
    pub fn current(self, current: i64) -> (r: Self)
        ensures
            r == (PhysicalQuantityBuilder { current, ..self }),
    {
        PhysicalQuantityBuilder { current, ..self }
    }

    /// Sets the temperature exponent.
    pub fn temperature(self, temperature: i64) -> (r: Self)
        ensures
            r == (PhysicalQuantityBuilder { temperature, ..self }),
    {
        PhysicalQuantityBuilder { temperature, ..self }
    }

    /// Sets the amount-of-substance exponent.
    pub fn amount_of_substance(self, amount_of_substance: i64) -> (r: Self)
        ensures
            r == (PhysicalQuantityBuilder { amount_of_substance, ..self }),
    {
        PhysicalQuantityBuilder { amount_of_substance, ..self }
    }

    /// Sets the luminous-intensity exponent.
    pub fn luminous_intensity(self, luminous_intensity: i64) -> (r: Self)
        ensures
            r == (PhysicalQuantityBuilder { luminous_intensity, ..self }),
    {
        PhysicalQuantityBuilder { luminous_intensity, ..self }
    }

    /// Combines two builders as a product: exponents add component-wise
    /// (wrapping).
    pub fn mul(self, rhs: Self) -> (r: Self)
        ensures
            r.time == i64_specs::wrapping_add(self.time, rhs.time),
            r.length == i64_specs::wrapping_add(self.length, rhs.length),
            r.mass == i64_specs::wrapping_add(self.mass, rhs.mass),
            r.current == i64_specs::wrapping_add(self.current, rhs.current),
            r.temperature == i64_specs::wrapping_add(self.temperature, rhs.temperature),
            r.amount_of_substance == i64_specs::wrapping_add(
                self.amount_of_substance,
                rhs.amount_of_substance,
            ),
            r.luminous_intensity == i64_specs::wrapping_add(
                self.luminous_intensity,
                rhs.luminous_intensity,
            ),
    {
        PhysicalQuantityBuilder::new().time(self.time.wrapping_add(rhs.time)).length(
            self.length.wrapping_add(rhs.length),
        ).mass(self.mass.wrapping_add(rhs.mass)).current(
            self.current.wrapping_add(rhs.current),
        ).temperature(self.temperature.wrapping_add(rhs.temperature)).amount_of_substance(
            self.amount_of_substance.wrapping_add(rhs.amount_of_substance),
        ).luminous_intensity(self.luminous_intensity.wrapping_add(rhs.luminous_intensity))
    }

    /// Combines two builders as a quotient: exponents subtract component-wise
    /// (wrapping).
    pub fn div(self, rhs: Self) -> (r: Self)
        ensures
            r.time == i64_specs::wrapping_sub(self.time, rhs.time),
            r.length == i64_specs::wrapping_sub(self.length, rhs.length),
            r.mass == i64_specs::wrapping_sub(self.mass, rhs.mass),
            r.current == i64_specs::wrapping_sub(self.current, rhs.current),
            r.temperature == i64_specs::wrapping_sub(self.temperature, rhs.temperature),
            r.amount_of_substance == i64_specs::wrapping_sub(
                self.amount_of_substance,
                rhs.amount_of_substance,
            ),
            r.luminous_intensity == i64_specs::wrapping_sub(
                self.luminous_intensity,
                rhs.luminous_intensity,
            ),
    {
        PhysicalQuantityBuilder::new().time(self.time.wrapping_sub(rhs.time)).length(
            self.length.wrapping_sub(rhs.length),
        ).mass(self.mass.wrapping_sub(rhs.mass)).current(
            self.current.wrapping_sub(rhs.current),
        ).temperature(self.temperature.wrapping_sub(rhs.temperature)).amount_of_substance(
            self.amount_of_substance.wrapping_sub(rhs.amount_of_substance),
        ).luminous_intensity(self.luminous_intensity.wrapping_sub(rhs.luminous_intensity))
    }

    /// Finishes the construction.
    pub fn build(self) -> (r: PhysicalQuantity)
        ensures
            r.time == self.time,
            r.length == self.length,
            r.mass == self.mass,
            r.current == self.current,
            r.temperature == self.temperature,
            r.amount_of_substance == self.amount_of_substance,
            r.luminous_intensity == self.luminous_intensity,
    {
        PhysicalQuantity {
            time: self.time,
            length: self.length,
            mass: self.mass,
            current: self.current,
            temperature: self.temperature,
            amount_of_substance: self.amount_of_substance,
            luminous_intensity: self.luminous_intensity,
        }
    }
}

} // verus!
