//! The algebraic laws of the dimension group and of the unit table, stated
//! and proved over the same specification functions that the executable
//! functions' contracts use.

use crate::dimension::{spec_dim_mul, spec_dimensionless, PhysicalQuantity};
use crate::format::spec_unit_text;
use crate::quantity::{spec_cn_div, ConcreteNumber};
use crate::units::{spec_base_vector, spec_scale, spec_unit_vector};
use vstd::arithmetic::div_mod::{lemma_mod_multiples_vanish, lemma_small_mod};
use vstd::prelude::*;
use vstd::wrapping::i64_specs;

verus! {

/// The `i64` range holds its own value under the wrapping reduction.
proof fn lemma_signed_crop_id(x: int)
    requires
        i64::MIN <= x <= i64::MAX,
    ensures
        i64_specs::signed_crop(x) == x,
{
    let w = 0x1_0000_0000_0000_0000int;
    if x >= 0 {
        lemma_small_mod(x as nat, w as nat);
    } else {
        lemma_mod_multiples_vanish(-1, x + w, w);
        lemma_small_mod((x + w) as nat, w as nat);
    }
}

/// Scaling an exponent by 1 leaves it unchanged.
proof fn lemma_wrapping_mul_one(x: i64)
    ensures
        i64_specs::wrapping_mul(x, 1) == x,
{
    assert(x * 1 == x);
    lemma_signed_crop_id(x as int);
}

/// The wrapping reduction keeps its argument's residue.
proof fn lemma_crop_mod(x: int)
    ensures
        i64_specs::signed_crop(x) as int % 0x1_0000_0000_0000_0000int == x % 0x1_0000_0000_0000_0000int,
{
    let w = 0x1_0000_0000_0000_0000int;
    lemma_mod_multiples_vanish(-1, x % w, w);
    lemma_mod_multiples_vanish(0, x % w, w);
    vstd::arithmetic::div_mod::lemma_mod_twice(x, w);
}

/// Two integers with the same residue wrap to the same `i64`.
proof fn lemma_crop_congruent(x: int, y: int)
    requires
        x % 0x1_0000_0000_0000_0000int == y % 0x1_0000_0000_0000_0000int,
    ensures
        i64_specs::signed_crop(x) == i64_specs::signed_crop(y),
{
}

/// A wrapping sum is the wrapping reduction of the exact sum.
proof fn lemma_wrapping_add_is_crop(a: i64, b: i64)
    ensures
        i64_specs::wrapping_add(a, b) == i64_specs::signed_crop(a + b),
{
    let w = 0x1_0000_0000_0000_0000int;
    let y = a + b;
    if y > i64::MAX {
        lemma_small_mod(y as nat, w as nat);
    } else if y < i64::MIN {
        lemma_mod_multiples_vanish(-1, y + w, w);
        lemma_small_mod((y + w) as nat, w as nat);
    } else {
        lemma_signed_crop_id(y);
    }
}

/// Scaling by a wrapped sum of exponents equals multiplying the two scaled
/// exponents, component by component: wrapping is a ring congruence.
proof fn lemma_wrapping_scale_additive(x: i64, a: i64, b: i64)
    ensures
        i64_specs::wrapping_mul(x, i64_specs::wrapping_add(a, b)) == i64_specs::wrapping_add(
            i64_specs::wrapping_mul(x, a),
            i64_specs::wrapping_mul(x, b),
        ),
{
    let w = 0x1_0000_0000_0000_0000int;
    let u = i64_specs::wrapping_add(a, b);
    lemma_wrapping_add_is_crop(a, b);
    lemma_crop_mod(a + b);
    // x * u and x * (a + b) share a residue.
    vstd::arithmetic::div_mod::lemma_mul_mod_noop_right(x as int, u as int, w);
    vstd::arithmetic::div_mod::lemma_mul_mod_noop_right(x as int, a + b, w);
    assert((x as int) * ((u as int) % w) == (x as int) * ((a + b) % w));
    assert((x * u) % w == (x * (a + b)) % w);

    // The two wrapped products, added exactly, share a residue with
    // x * a + x * b.
    let p = i64_specs::wrapping_mul(x, a);
    let q = i64_specs::wrapping_mul(x, b);
    lemma_crop_mod((x as int) * (a as int));
    lemma_crop_mod((x as int) * (b as int));
    vstd::arithmetic::div_mod::lemma_add_mod_noop(p as int, q as int, w);
    vstd::arithmetic::div_mod::lemma_add_mod_noop((x as int) * (a as int), (x as int) * (b as int), w);
    assert((p + q) % w == (x * a + x * b) % w);

    assert((x as int) * (a + b) == (x as int) * (a as int) + (x as int) * (b as int))
        by (nonlinear_arith);

    lemma_wrapping_add_is_crop(p, q);
    lemma_crop_congruent((x as int) * (u as int), (p as int) + (q as int));
}

/// A dimension vector scaled by 1 is itself.
pub proof fn lemma_scale_one(v: PhysicalQuantity)
    ensures
        spec_scale(v, 1) == v,
{
    lemma_wrapping_mul_one(v.time);
    lemma_wrapping_mul_one(v.length);
    lemma_wrapping_mul_one(v.mass);
    lemma_wrapping_mul_one(v.current);
    lemma_wrapping_mul_one(v.temperature);
    lemma_wrapping_mul_one(v.amount_of_substance);
    lemma_wrapping_mul_one(v.luminous_intensity);
}

/// Law: dimension multiplication is commutative, so composing units in either
/// order yields the same dimension vector.
pub proof fn lemma_dim_mul_commutes(a: PhysicalQuantity, b: PhysicalQuantity)
    ensures
        spec_dim_mul(a, b) == spec_dim_mul(b, a),
{
}

/// Law: dimension multiplication is associative, so a fold over unit tokens
/// does not depend on grouping.
pub proof fn lemma_dim_mul_associates(a: PhysicalQuantity, b: PhysicalQuantity, c: PhysicalQuantity)
    ensures
        spec_dim_mul(spec_dim_mul(a, b), c) == spec_dim_mul(a, spec_dim_mul(b, c)),
{
    lemma_wrapping_add_assoc(a.time, b.time, c.time);
    lemma_wrapping_add_assoc(a.length, b.length, c.length);
    lemma_wrapping_add_assoc(a.mass, b.mass, c.mass);
    lemma_wrapping_add_assoc(a.current, b.current, c.current);
    lemma_wrapping_add_assoc(a.temperature, b.temperature, c.temperature);
    lemma_wrapping_add_assoc(a.amount_of_substance, b.amount_of_substance, c.amount_of_substance);
    lemma_wrapping_add_assoc(a.luminous_intensity, b.luminous_intensity, c.luminous_intensity);
}

proof fn lemma_wrapping_add_assoc(a: i64, b: i64, c: i64)
    ensures
        i64_specs::wrapping_add(i64_specs::wrapping_add(a, b), c) == i64_specs::wrapping_add(
            a,
            i64_specs::wrapping_add(b, c),
        ),
{
}

/// Law: dividing any quantity by itself yields the dimensionless vector.
pub proof fn lemma_self_division_dimensionless(q: ConcreteNumber)
    ensures
        spec_cn_div(q, q).physical_quantity == spec_dimensionless(),
{
}

/// Law: scaling a unit by a (wrapped) sum of exponents carries the same
/// dimension vector as multiplying the unit scaled by each exponent alone.
pub proof fn lemma_unit_exponent_additive(sym: Seq<char>, a: i64, b: i64)
    requires
        spec_base_vector(sym) is Some,
    ensures
        spec_unit_vector(sym, i64_specs::wrapping_add(a, b)) == Some(
            spec_dim_mul(spec_unit_vector(sym, a)->Some_0, spec_unit_vector(sym, b)->Some_0),
        ),
{
    let v = spec_base_vector(sym)->Some_0;
    lemma_wrapping_scale_additive(v.time, a, b);
    lemma_wrapping_scale_additive(v.length, a, b);
    lemma_wrapping_scale_additive(v.mass, a, b);
    lemma_wrapping_scale_additive(v.current, a, b);
    lemma_wrapping_scale_additive(v.temperature, a, b);
    lemma_wrapping_scale_additive(v.amount_of_substance, a, b);
    lemma_wrapping_scale_additive(v.luminous_intensity, a, b);
}

/// Law: a unit token with explicit exponent 2 carries the same dimension
/// vector as the unit multiplied by itself.
pub proof fn lemma_unit_exponent_scaling(sym: Seq<char>)
    requires
        spec_base_vector(sym) is Some,
    ensures
        spec_unit_vector(sym, 2) == Some(
            spec_dim_mul(spec_unit_vector(sym, 1)->Some_0, spec_unit_vector(sym, 1)->Some_0),
        ),
{
    lemma_unit_exponent_additive(sym, 1, 1);
    assert(i64_specs::wrapping_add(1i64, 1i64) == 2i64);
}

/// Law: every named unit symbol, looked up with exponent 1 and formatted
/// again, reproduces itself. The spelled-out "ohm" is the one alias: it
/// shares the ohm's vector, which formats as "Ω".
#[verifier::rlimit(50)]
pub proof fn lemma_named_unit_round_trip(sym: Seq<char>)
    requires
        spec_base_vector(sym) is Some,
        sym != "ohm"@,
    ensures
        spec_unit_text(spec_unit_vector(sym, 1)->Some_0) == sym,
{
    let v = spec_base_vector(sym)->Some_0;
    lemma_scale_one(v);
}

} // verus!
