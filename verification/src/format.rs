//! Canonical text for a dimension vector: the named unit symbol when the
//! vector matches one exactly, `dimensionless` for the identity, and
//! otherwise a space-joined product of base symbols ordered alphabetically
//! (`A K cd kg m mol s`), each with `^exponent` when the exponent is not 1.

use crate::dimension::PhysicalQuantity;
use crate::units::spec_vec7;
use vstd::prelude::*;
use vstd::string::StringExecFns;

verus! {

/// The character of a single decimal digit.
pub open spec fn digit_char_of(d: nat) -> char {
    if d == 0 {
        '0'
    } else if d == 1 {
        '1'
    } else if d == 2 {
        '2'
    } else if d == 3 {
        '3'
    } else if d == 4 {
        '4'
    } else if d == 5 {
        '5'
    } else if d == 6 {
        '6'
    } else if d == 7 {
        '7'
    } else if d == 8 {
        '8'
    } else {
        '9'
    }
}

/// The decimal text of a natural number.
pub open spec fn spec_nat_text(n: nat) -> Seq<char>
    decreases n,
{
    if n < 10 {
        seq![digit_char_of(n)]
    } else {
        spec_nat_text(n / 10).push(digit_char_of(n % 10))
    }
}

/// The decimal text of an integer, with a leading minus sign when negative.
pub open spec fn spec_int_text(i: int) -> Seq<char> {
    if i < 0 {
        seq!['-'] + spec_nat_text((-i) as nat)
    } else {
        spec_nat_text(i as nat)
    }
}

/// One entry of a symbolic product: the symbol alone for exponent 1, else
/// `symbol^exponent`.
pub open spec fn spec_entry_text(sym: Seq<char>, e: i64) -> Seq<char> {
    if e == 1 {
        sym
    } else {
        sym + seq!['^'] + spec_int_text(e as int)
    }
}

/// Joins a further entry onto a product: with a single space between entries.
pub open spec fn spec_join_entry(acc: Seq<char>, part: Seq<char>) -> Seq<char> {
    if acc.len() == 0 {
        part
    } else {
        acc + seq![' '] + part
    }
}

/// The space-joined symbolic product of every non-zero component, in the
/// alphabetical order of the base symbols: A, K, cd, kg, m, mol, s.
pub open spec fn spec_product_text(pq: PhysicalQuantity) -> Seq<char> {
    let t0 = Seq::<char>::empty();
    let t1 = if pq.current != 0 {
        spec_join_entry(t0, spec_entry_text("A"@, pq.current))
    } else {
        t0
    };
    let t2 = if pq.temperature != 0 {
        spec_join_entry(t1, spec_entry_text("K"@, pq.temperature))
    } else {
        t1
    };
    let t3 = if pq.luminous_intensity != 0 {
        spec_join_entry(t2, spec_entry_text("cd"@, pq.luminous_intensity))
    } else {
        t2
    };
    let t4 = if pq.mass != 0 {
        spec_join_entry(t3, spec_entry_text("kg"@, pq.mass))
    } else {
        t3
    };
    let t5 = if pq.length != 0 {
        spec_join_entry(t4, spec_entry_text("m"@, pq.length))
    } else {
        t4
    };
    let t6 = if pq.amount_of_substance != 0 {
        spec_join_entry(t5, spec_entry_text("mol"@, pq.amount_of_substance))
    } else {
        t5
    };
    let t7 = if pq.time != 0 {
        spec_join_entry(t6, spec_entry_text("s"@, pq.time))
    } else {
        t6
    };
    t7
}

/// The canonical text of a dimension vector: a named unit symbol on an exact
/// match, `dimensionless` for the identity, else the symbolic product.
pub open spec fn spec_unit_text(pq: PhysicalQuantity) -> Seq<char> {
    if pq == spec_vec7(1, 0, 0, 0, 0, 0, 0) {
        "s"@
    } else if pq == spec_vec7(0, 1, 0, 0, 0, 0, 0) {
        "m"@
    } else if pq == spec_vec7(0, 0, 1, 0, 0, 0, 0) {
        "kg"@
    } else if pq == spec_vec7(0, 0, 0, 1, 0, 0, 0) {
        "A"@
    } else if pq == spec_vec7(0, 0, 0, 0, 1, 0, 0) {
        "K"@
    } else if pq == spec_vec7(0, 0, 0, 0, 0, 1, 0) {
        "mol"@
    } else if pq == spec_vec7(0, 0, 0, 0, 0, 0, 1) {
        "cd"@
    } else if pq == spec_vec7(-1i64, 0, 0, 0, 0, 0, 0) {
        "Hz"@
    } else if pq == spec_vec7(-2i64, 1, 1, 0, 0, 0, 0) {
        "N"@
    } else if pq == spec_vec7(-2i64, -1i64, 1, 0, 0, 0, 0) {
        "Pa"@
    } else if pq == spec_vec7(-2i64, 2, 1, 0, 0, 0, 0) {
        "J"@
    } else if pq == spec_vec7(-3i64, 2, 1, 0, 0, 0, 0) {
        "W"@
    } else if pq == spec_vec7(1, 0, 0, 1, 0, 0, 0) {
        "C"@
    } else if pq == spec_vec7(-3i64, 2, 1, -1i64, 0, 0, 0) {
        "V"@
    } else if pq == spec_vec7(-2i64, 2, 1, -1i64, 0, 0, 0) {
        "Wb"@
    } else if pq == spec_vec7(-2i64, 0, 1, -1i64, 0, 0, 0) {
        "T"@
    } else if pq == spec_vec7(4, -2i64, -1i64, 2, 0, 0, 0) {
        "F"@
    } else if pq == spec_vec7(-3i64, 2, 1, -2i64, 0, 0, 0) {
        "Ω"@
    } else if pq == spec_vec7(3, -2i64, -1i64, 2, 0, 0, 0) {
        "S"@
    } else if pq == spec_vec7(-2i64, 2, 1, -2i64, 0, 0, 0) {
        "H"@
    } else if pq == spec_vec7(-1i64, 0, 0, 0, 0, 1, 0) {
        "kat"@
    } else if pq == spec_vec7(0, 0, 0, 0, 0, 0, 0) {
        "dimensionless"@
    } else {
        spec_product_text(pq)
    }
}

/// Appends one decimal digit.
fn append_digit(out: &mut String, d: u64)
    requires
        d < 10,
    ensures
        final(out)@ == old(out)@ + seq![digit_char_of(d as nat)],
{
    if d == 0 {
        out.append("0");
        proof {
            reveal_strlit("0");
            assert(out@ =~= old(out)@ + seq![digit_char_of(d as nat)]);
        }
    } else if d == 1 {
        out.append("1");
        proof {
            reveal_strlit("1");
            assert(out@ =~= old(out)@ + seq![digit_char_of(d as nat)]);
        }
    } else if d == 2 {
        out.append("2");
        proof {
            reveal_strlit("2");
            assert(out@ =~= old(out)@ + seq![digit_char_of(d as nat)]);
        }
    } else if d == 3 {
        out.append("3");
        proof {
            reveal_strlit("3");
            assert(out@ =~= old(out)@ + seq![digit_char_of(d as nat)]);
        }
    } else if d == 4 {
        out.append("4");
        proof {
            reveal_strlit("4");
            assert(out@ =~= old(out)@ + seq![digit_char_of(d as nat)]);
        }
    } else if d == 5 {
        out.append("5");
        proof {
            reveal_strlit("5");
            assert(out@ =~= old(out)@ + seq![digit_char_of(d as nat)]);
        }
    } else if d == 6 {
        out.append("6");
        proof {
            reveal_strlit("6");
            assert(out@ =~= old(out)@ + seq![digit_char_of(d as nat)]);
        }
    } else if d == 7 {
        out.append("7");
        proof {
            reveal_strlit("7");
            assert(out@ =~= old(out)@ + seq![digit_char_of(d as nat)]);
        }
    } else if d == 8 {
        out.append("8");
        proof {
            reveal_strlit("8");
            assert(out@ =~= old(out)@ + seq![digit_char_of(d as nat)]);
        }
    } else {
        out.append("9");
        proof {
            reveal_strlit("9");
            assert(out@ =~= old(out)@ + seq![digit_char_of(d as nat)]);
        }
    }
}

/// Appends the decimal text of a natural number.
fn append_nat(out: &mut String, n: u64)
    ensures
        final(out)@ == old(out)@ + spec_nat_text(n as nat),
    decreases n,
{
    if n < 10 {
        append_digit(out, n);
    } else {
        append_nat(out, n / 10);
        append_digit(out, n % 10);
        proof {
            assert(out@ =~= old(out)@ + spec_nat_text(n as nat));
        }
    }
}

/// Appends the decimal text of a signed exponent.
fn append_int(out: &mut String, i: i64)
    ensures
        final(out)@ == old(out)@ + spec_int_text(i as int),
{
    if i < 0 {
        out.append("-");
        let m: u64 = (-(i as i128)) as u64;
        append_nat(out, m);
        proof {
            reveal_strlit("-");
            assert("-"@ =~= seq!['-']);
            assert(out@ =~= old(out)@ + spec_int_text(i as int));
        }
    } else {
        append_nat(out, i as u64);
    }
}

/// Appends one product entry: the symbol, with `^exponent` unless the
/// exponent is 1.
fn append_entry(out: &mut String, sym: &str, e: i64)
    ensures
        final(out)@ == old(out)@ + spec_entry_text(sym@, e),
{
    out.append(sym);
    if e != 1 {
        out.append("^");
        append_int(out, e);
        proof {
            reveal_strlit("^");
            assert("^"@ =~= seq!['^']);
            assert(out@ =~= old(out)@ + spec_entry_text(sym@, e));
        }
    }
}

/// Appends an entry preceded by a separating space unless the product is
/// still empty.
fn join_entry(out: &mut String, sym: &str, e: i64)
    ensures
        final(out)@ == spec_join_entry(old(out)@, spec_entry_text(sym@, e)),
{
    if out.as_str().is_empty() {
        append_entry(out, sym, e);
    } else {
        out.append(" ");
        append_entry(out, sym, e);
        proof {
            reveal_strlit(" ");
            assert(" "@ =~= seq![' ']);
            assert(out@ =~= spec_join_entry(old(out)@, spec_entry_text(sym@, e)));
        }
    }
}

impl PhysicalQuantity {
    /// The canonical text of this dimension vector, exactly as
    /// `spec_unit_text` describes it.
    pub fn unit_string(&self) -> (r: String)
        ensures
            r@ == spec_unit_text(*self),
    {
        if *self == PhysicalQuantity::new(1, 0, 0, 0, 0, 0, 0) {
            return String::from_str("s");
        }
        if *self == PhysicalQuantity::new(0, 1, 0, 0, 0, 0, 0) {
            return String::from_str("m");
        }
        if *self == PhysicalQuantity::new(0, 0, 1, 0, 0, 0, 0) {
            return String::from_str("kg");
        }
        if *self == PhysicalQuantity::new(0, 0, 0, 1, 0, 0, 0) {
            return String::from_str("A");
        }
        if *self == PhysicalQuantity::new(0, 0, 0, 0, 1, 0, 0) {
            return String::from_str("K");
        }
        if *self == PhysicalQuantity::new(0, 0, 0, 0, 0, 1, 0) {
            return String::from_str("mol");
        }
        if *self == PhysicalQuantity::new(0, 0, 0, 0, 0, 0, 1) {
            return String::from_str("cd");
        }
        if *self == PhysicalQuantity::new(-1, 0, 0, 0, 0, 0, 0) {
            return String::from_str("Hz");
        }
        if *self == PhysicalQuantity::new(-2, 1, 1, 0, 0, 0, 0) {
            return String::from_str("N");
        }
        if *self == PhysicalQuantity::new(-2, -1, 1, 0, 0, 0, 0) {
            return String::from_str("Pa");
        }
        if *self == PhysicalQuantity::new(-2, 2, 1, 0, 0, 0, 0) {
            return String::from_str("J");
        }
        if *self == PhysicalQuantity::new(-3, 2, 1, 0, 0, 0, 0) {
            return String::from_str("W");
        }
        if *self == PhysicalQuantity::new(1, 0, 0, 1, 0, 0, 0) {
            return String::from_str("C");
        }
        if *self == PhysicalQuantity::new(-3, 2, 1, -1, 0, 0, 0) {
            return String::from_str("V");
        }
        if *self == PhysicalQuantity::new(-2, 2, 1, -1, 0, 0, 0) {
            return String::from_str("Wb");
        }
        if *self == PhysicalQuantity::new(-2, 0, 1, -1, 0, 0, 0) {
            return String::from_str("T");
        }
        if *self == PhysicalQuantity::new(4, -2, -1, 2, 0, 0, 0) {
            return String::from_str("F");
        }
        if *self == PhysicalQuantity::new(-3, 2, 1, -2, 0, 0, 0) {
            return String::from_str("Ω");
        }
        if *self == PhysicalQuantity::new(3, -2, -1, 2, 0, 0, 0) {
            return String::from_str("S");
        }
        if *self == PhysicalQuantity::new(-2, 2, 1, -2, 0, 0, 0) {
            return String::from_str("H");
        }
        if *self == PhysicalQuantity::new(-1, 0, 0, 0, 0, 1, 0) {
            return String::from_str("kat");
        }
        if *self == PhysicalQuantity::new(0, 0, 0, 0, 0, 0, 0) {
            return String::from_str("dimensionless");
        }
        let mut out = String::new();
        if self.current != 0 {
            join_entry(&mut out, "A", self.current);
        }
        if self.temperature != 0 {
            join_entry(&mut out, "K", self.temperature);
        }
        if self.luminous_intensity != 0 {
            join_entry(&mut out, "cd", self.luminous_intensity);
        }
        if self.mass != 0 {
            join_entry(&mut out, "kg", self.mass);
        }
        if self.length != 0 {
            join_entry(&mut out, "m", self.length);
        }
        if self.amount_of_substance != 0 {
            join_entry(&mut out, "mol", self.amount_of_substance);
        }
        if self.time != 0 {
            join_entry(&mut out, "s", self.time);
        }
        out
    }
}

} // verus!
