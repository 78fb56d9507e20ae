//! The expression grammar and its parser.
//!
//! ```text
//! expr   := term (('+' | '-') term)*
//! term   := factor (('*' | '/') factor)*
//! factor := concrete_number | '(' expr ')'
//! concrete_number := FLOAT (WS+ compound_unit)?
//! compound_unit   := unit_token (WS+ unit_token)*
//! unit_token      := SYMBOL ('^' SIGNED_INT)?
//! ```
//!
//! Whitespace is free around operators and parentheses; at least one
//! whitespace character must separate a magnitude from its unit. The
//! specification-level parser below is the reference; each executable
//! function returns exactly what its specification counterpart describes.

use crate::dimension::{spec_dim_mul, spec_dimensionless, PhysicalQuantity};
use crate::errors::CustomError;
use crate::expr::{Expr, Oper};
use crate::float_bits::{float_bits_of, parse_float_bits};
use crate::quantity::ConcreteNumber;
use crate::scan::{
    float_end, is_space, lemma_float_token_slice, parse_isize, skip_ws, spec_float_end,
    spec_signed_int, spec_skip_ws, spec_word_end, word,
};
use crate::units::{spec_unit_vector, unit_as_physical_quantity};
use vstd::prelude::*;
use vstd::string::StrSliceExecFns;
use vstd::string::StringExecFns;

verus! {

/// The outcome of a specification-level parse: a value with the position just
/// past it, a plain mismatch, or a unit symbol outside the table.
pub enum Parsed<T> {
    Found(T, nat),
    Fail,
    BadUnit,
}

/// How an executable parse failed.
#[derive(Debug, PartialEq, Eq, Structural, Clone, Copy)]
pub enum ParseFailure {
    /// The input does not match the grammar here.
    Syntax,
    /// A unit token's symbol is not in the unit table.
    UnknownUnit,
}

/// A unit token at `pos`: a symbol, and an optional caret-prefixed exponent.
/// A malformed or overflowing exponent is not consumed: the token is then the
/// bare symbol with exponent 1.
pub open spec fn spec_unit_token(s: Seq<char>, pos: nat) -> Option<(Seq<char>, i64, nat)>
    recommends
        pos <= s.len(),
{
    let we = spec_word_end(s, pos);
    if we == pos {
        None
    } else {
        let sym = s.subrange(pos as int, we as int);
        if we < s.len() && s[we as int] == '^' {
            match spec_signed_int(s, we + 1) {
                Some((v, e)) => Some((sym, v, e)),
                None => Some((sym, 1i64, we)),
            }
        } else {
            Some((sym, 1i64, we))
        }
    }
}

/// The unit tokens after the first one: each preceded by at least one
/// whitespace character, folded into `acc` by dimension multiplication.
/// Stops, without consuming the whitespace, before anything that is not a
/// unit token.
pub open spec fn spec_compound_rest(s: Seq<char>, pos: nat, acc: PhysicalQuantity) -> Parsed<
    PhysicalQuantity,
>
    decreases s.len() - pos
        when pos <= s.len()
{
    let p1 = spec_skip_ws(s, pos);
    if p1 == pos || p1 > s.len() {
        Parsed::Found(acc, pos)
    } else {
        match spec_unit_token(s, p1) {
            None => Parsed::Found(acc, pos),
            Some((sym, i, e)) => match spec_unit_vector(sym, i) {
                None => Parsed::BadUnit,
                Some(v) => if pos < e <= s.len() {
                    spec_compound_rest(s, e, spec_dim_mul(acc, v))
                } else {
                    Parsed::Fail
                },
            },
        }
    }
}

/// A possibly empty sequence of whitespace-separated unit tokens starting at
/// `pos`, folded left-to-right by dimension multiplication from the
/// dimensionless identity.
pub open spec fn spec_compound_units(s: Seq<char>, pos: nat) -> Parsed<PhysicalQuantity>
    recommends
        pos <= s.len(),
{
    match spec_unit_token(s, pos) {
        None => Parsed::Found(spec_dimensionless(), pos),
        Some((sym, i, e)) => match spec_unit_vector(sym, i) {
            None => Parsed::BadUnit,
            Some(v) => if pos < e <= s.len() {
                spec_compound_rest(s, e, spec_dim_mul(spec_dimensionless(), v))
            } else {
                Parsed::Fail
            },
        },
    }
}

/// A concrete number at `pos`: a float literal, then — only when at least one
/// whitespace character follows it — a compound unit. Without the separator
/// the quantity is dimensionless.
pub open spec fn spec_concrete(s: Seq<char>, pos: nat) -> Parsed<ConcreteNumber>
    recommends
        pos <= s.len(),
{
    match spec_float_end(s, pos) {
        None => Parsed::Fail,
        Some(fe) => {
            let bits = float_bits_of(s.subrange(pos as int, fe as int));
            if fe < s.len() && is_space(s[fe as int]) {
                match spec_compound_units(s, spec_skip_ws(s, fe)) {
                    // When no unit token follows the whitespace, the compound
                    // unit is empty and the whitespace is left unconsumed.
                    Parsed::Found(pq, e) => Parsed::Found(
                        ConcreteNumber { magnitude_bits: bits, physical_quantity: pq },
                        if e == spec_skip_ws(s, fe) {
                            fe
                        } else {
                            e
                        },
                    ),
                    Parsed::Fail => Parsed::Fail,
                    Parsed::BadUnit => Parsed::BadUnit,
                }
            } else {
                Parsed::Found(
                    ConcreteNumber {
                        magnitude_bits: bits,
                        physical_quantity: spec_dimensionless(),
                    },
                    fe,
                )
            }
        },
    }
}

/// A factor: a concrete number, or a parenthesized expression, with
/// whitespace skipped before and after.
pub open spec fn spec_factor(s: Seq<char>, pos: nat) -> Parsed<Expr>
    decreases s.len() - pos, 0int
        when pos <= s.len()
{
    let p = spec_skip_ws(s, pos);
    if p < pos || p > s.len() {
        Parsed::Fail
    } else if p < s.len() && s[p as int] == '(' {
        match spec_expr(s, p + 1) {
            Parsed::Found(e, p2) => if p2 < s.len() && s[p2 as int] == ')' {
                Parsed::Found(Expr::Paren(Box::new(e)), spec_skip_ws(s, p2 + 1))
            } else {
                Parsed::Fail
            },
            Parsed::Fail => Parsed::Fail,
            Parsed::BadUnit => Parsed::BadUnit,
        }
    } else {
        match spec_concrete(s, p) {
            Parsed::Found(cn, p2) => Parsed::Found(
                Expr::Value(cn),
                if p2 <= s.len() {
                    spec_skip_ws(s, p2)
                } else {
                    p2
                },
            ),
            Parsed::Fail => Parsed::Fail,
            Parsed::BadUnit => Parsed::BadUnit,
        }
    }
}

/// The multiplicative tail of a term: `*` or `/` followed by a factor, folded
/// left-associatively onto `acc`. A factor that fails to parse after the
/// operator is not an error: the tail ends before the operator.
pub open spec fn spec_term_rest(s: Seq<char>, pos: nat, acc: Expr) -> Parsed<Expr>
    decreases s.len() - pos, 1int
        when pos <= s.len()
{
    let p = spec_skip_ws(s, pos);
    if p < pos || p > s.len() {
        Parsed::Fail
    } else if p < s.len() && (s[p as int] == '*' || s[p as int] == '/') {
        match spec_factor(s, p + 1) {
            Parsed::Found(rhs, p2) => if pos < p2 <= s.len() {
                spec_term_rest(
                    s,
                    p2,
                    if s[p as int] == '*' {
                        Expr::Mul(Box::new(acc), Box::new(rhs))
                    } else {
                        Expr::Div(Box::new(acc), Box::new(rhs))
                    },
                )
            } else {
                Parsed::Fail
            },
            Parsed::Fail => Parsed::Found(acc, pos),
            Parsed::BadUnit => Parsed::BadUnit,
        }
    } else {
        Parsed::Found(acc, pos)
    }
}

/// A term: a factor followed by its multiplicative tail.
pub open spec fn spec_term(s: Seq<char>, pos: nat) -> Parsed<Expr>
    decreases s.len() - pos, 2int
        when pos <= s.len()
{
    match spec_factor(s, pos) {
        Parsed::Found(e0, p0) => if pos < p0 <= s.len() {
            spec_term_rest(s, p0, e0)
        } else {
            Parsed::Fail
        },
        Parsed::Fail => Parsed::Fail,
        Parsed::BadUnit => Parsed::BadUnit,
    }
}

/// The additive tail of an expression: `+` or `-` followed by a term, folded
/// left-associatively onto `acc`. A term that fails to parse after the
/// operator is not an error: the tail ends before the operator.
pub open spec fn spec_expr_rest(s: Seq<char>, pos: nat, acc: Expr) -> Parsed<Expr>
    decreases s.len() - pos, 3int
        when pos <= s.len()
{
    let p = spec_skip_ws(s, pos);
    if p < pos || p > s.len() {
        Parsed::Fail
    } else if p < s.len() && (s[p as int] == '+' || s[p as int] == '-') {
        match spec_term(s, p + 1) {
            Parsed::Found(rhs, p2) => if pos < p2 <= s.len() {
                spec_expr_rest(
                    s,
                    p2,
                    if s[p as int] == '+' {
                        Expr::Add(Box::new(acc), Box::new(rhs))
                    } else {
                        Expr::Sub(Box::new(acc), Box::new(rhs))
                    },
                )
            } else {
                Parsed::Fail
            },
            Parsed::Fail => Parsed::Found(acc, pos),
            Parsed::BadUnit => Parsed::BadUnit,
        }
    } else {
        Parsed::Found(acc, pos)
    }
}

/// An expression: a term followed by its additive tail.
pub open spec fn spec_expr(s: Seq<char>, pos: nat) -> Parsed<Expr>
    decreases s.len() - pos, 4int
        when pos <= s.len()
{
    match spec_term(s, pos) {
        Parsed::Found(e0, p0) => if pos < p0 <= s.len() {
            spec_expr_rest(s, p0, e0)
        } else {
            Parsed::Fail
        },
        Parsed::Fail => Parsed::Fail,
        Parsed::BadUnit => Parsed::BadUnit,
    }
}

/// Parses the unit token at `pos`, returning the end of its symbol, its
/// exponent, and the position just past the token.
fn unit_token(s: &str, pos: usize) -> (r: Option<(usize, i64, usize)>)
    requires
        pos <= s@.len(),
    ensures
        match r {
            Some((we, i, p)) => spec_unit_token(s@, pos as nat) == Some(
                (s@.subrange(pos as int, we as int), i, p as nat),
            ) && pos < we <= p <= s@.len(),
            None => spec_unit_token(s@, pos as nat) is None,
        },
{
    let we = word(s, pos);
    if we == pos {
        return None;
    }
    let n = s.unicode_len();
    if we < n && s.get_char(we) == '^' {
        match parse_isize(s, we + 1) {
            Some((v, e)) => Some((we, v, e)),
            None => Some((we, 1i64, we)),
        }
    } else {
        Some((we, 1i64, we))
    }
}

/// The public face of `unit_token`: the symbol as a string slice, the
/// exponent, and the position just past the token.
pub fn unit_as_tuple<'a>(s: &'a str, pos: usize) -> (r: Option<(&'a str, i64, usize)>)
    requires
        pos <= s@.len(),
    ensures
        match r {
            Some((sym, i, p)) => spec_unit_token(s@, pos as nat) == Some((sym@, i, p as nat)),
            None => spec_unit_token(s@, pos as nat) is None,
        },
{
    match unit_token(s, pos) {
        Some((we, i, p)) => Some((s.substring_char(pos, we), i, p)),
        None => None,
    }
}

/// Parses a possibly empty whitespace-separated compound unit at `pos`,
/// folding the tokens' vectors from the dimensionless identity.
pub fn combined_unit(s: &str, pos: usize) -> (r: Result<(PhysicalQuantity, usize), ParseFailure>)
    requires
        pos <= s@.len(),
    ensures
        match r {
            Ok((pq, p)) => spec_compound_units(s@, pos as nat) == Parsed::Found(pq, p as nat) && pos
                <= p <= s@.len(),
            Err(ParseFailure::UnknownUnit) => spec_compound_units(s@, pos as nat)
                == Parsed::<PhysicalQuantity>::BadUnit,
            Err(ParseFailure::Syntax) => spec_compound_units(s@, pos as nat)
                == Parsed::<PhysicalQuantity>::Fail,
        },
{
    let first = match unit_token(s, pos) {
        None => {
            return Ok((PhysicalQuantity::new(0, 0, 0, 0, 0, 0, 0), pos));
        },
        Some(t) => t,
    };
    let (we0, i0, p0) = first;
    let v0 = match unit_as_physical_quantity(s, pos, we0, i0) {
        None => {
            return Err(ParseFailure::UnknownUnit);
        },
        Some(v) => v,
    };
    let mut acc = PhysicalQuantity::new(0, 0, 0, 0, 0, 0, 0).mul(v0);
    let mut cur: usize = p0;
    loop
        invariant
            pos < cur <= s@.len(),
            spec_compound_units(s@, pos as nat) == spec_compound_rest(s@, cur as nat, acc),
        decreases s@.len() - cur,
    {
        let p1 = skip_ws(s, cur);
        if p1 == cur {
            return Ok((acc, cur));
        }
        let tok = match unit_token(s, p1) {
            None => {
                return Ok((acc, cur));
            },
            Some(t) => t,
        };
        let (we, i, p2) = tok;
        let v = match unit_as_physical_quantity(s, p1, we, i) {
            None => {
                return Err(ParseFailure::UnknownUnit);
            },
            Some(v) => v,
        };
        acc = acc.mul(v);
        cur = p2;
    }
}

/// Parses a concrete number at `pos`: a float literal, and — when separated
/// by whitespace — a compound unit. Returns the magnitude's bit pattern with
/// the combined dimension vector.
pub fn get_concrete_number_as_tuple(s: &str, pos: usize) -> (r: Result<
    ((u64, PhysicalQuantity), usize),
    ParseFailure,
>)
    requires
        pos <= s@.len(),
    ensures
        match r {
            Ok(((bits, pq), p)) => spec_concrete(s@, pos as nat) == Parsed::Found(
                ConcreteNumber { magnitude_bits: bits, physical_quantity: pq },
                p as nat,
            ) && pos < p <= s@.len(),
            Err(ParseFailure::UnknownUnit) => spec_concrete(s@, pos as nat)
                == Parsed::<ConcreteNumber>::BadUnit,
            Err(ParseFailure::Syntax) => spec_concrete(s@, pos as nat)
                == Parsed::<ConcreteNumber>::Fail,
        },
{
    let fe = match float_end(s, pos) {
        None => {
            return Err(ParseFailure::Syntax);
        },
        Some(e) => e,
    };
    proof {
        lemma_float_token_slice(s@, pos as nat);
    }
    let lit = s.substring_char(pos, fe);
    let bits = parse_float_bits(lit);
    let n = s.unicode_len();
    if fe < n && space_char_at(s, fe) {
        let pu = skip_ws(s, fe);
        match combined_unit(s, pu) {
            Ok((pq, e)) => {
                // An empty compound unit leaves the whitespace unconsumed.
                let end: usize = if e == pu {
                    fe
                } else {
                    e
                };
                Ok(((bits, pq), end))
            },
            Err(f) => Err(f),
        }
    } else {
        Ok(((bits, PhysicalQuantity::new(0, 0, 0, 0, 0, 0, 0)), fe))
    }
}

/// Whether the character at `pos` is whitespace.
fn space_char_at(s: &str, pos: usize) -> (b: bool)
    requires
        pos < s@.len(),
    ensures
        b == is_space(s@[pos as int]),
{
    let c = s.get_char(pos);
    c == ' ' || c == '\t' || c == '\r' || c == '\n'
}

/// Parses a concrete number and wraps it as a quantity.
pub fn concrete_number(s: &str, pos: usize) -> (r: Result<(ConcreteNumber, usize), ParseFailure>)
    requires
        pos <= s@.len(),
    ensures
        match r {
            Ok((cn, p)) => spec_concrete(s@, pos as nat) == Parsed::Found(cn, p as nat) && pos < p
                <= s@.len(),
            Err(ParseFailure::UnknownUnit) => spec_concrete(s@, pos as nat)
                == Parsed::<ConcreteNumber>::BadUnit,
            Err(ParseFailure::Syntax) => spec_concrete(s@, pos as nat)
                == Parsed::<ConcreteNumber>::Fail,
        },
{
    match get_concrete_number_as_tuple(s, pos) {
        Ok(((bits, pq), p)) => Ok((ConcreteNumber::new(bits, pq), p)),
        Err(f) => Err(f),
    }
}

/// Parses a factor: a concrete number or a parenthesized expression.
pub(crate) fn factor(s: &str, pos: usize) -> (r: Result<(Expr, usize), ParseFailure>)
    requires
        pos <= s@.len(),
    ensures
        match r {
            Ok((e, p)) => spec_factor(s@, pos as nat) == Parsed::Found(e, p as nat) && pos < p
                <= s@.len(),
            Err(ParseFailure::UnknownUnit) => spec_factor(s@, pos as nat)
                == Parsed::<Expr>::BadUnit,
            Err(ParseFailure::Syntax) => spec_factor(s@, pos as nat) == Parsed::<Expr>::Fail,
        },
    decreases s@.len() - pos, 0int,
{
    let p = skip_ws(s, pos);
    let n = s.unicode_len();
    if p < n && s.get_char(p) == '(' {
        match expr(s, p + 1) {
            Ok((e, p2)) => {
                if p2 < n && s.get_char(p2) == ')' {
                    let end = skip_ws(s, p2 + 1);
                    Ok((Expr::Paren(Box::new(e)), end))
                } else {
                    Err(ParseFailure::Syntax)
                }
            },
            Err(f) => Err(f),
        }
    } else {
        match concrete_number(s, p) {
            Ok((cn, p2)) => {
                let end = skip_ws(s, p2);
                Ok((Expr::Value(cn), end))
            },
            Err(f) => Err(f),
        }
    }
}

/// Parses a term: a factor and its `*` / `/` tail, left-associative.
pub(crate) fn term(s: &str, pos: usize) -> (r: Result<(Expr, usize), ParseFailure>)
    requires
        pos <= s@.len(),
    ensures
        match r {
            Ok((e, p)) => spec_term(s@, pos as nat) == Parsed::Found(e, p as nat) && pos < p
                <= s@.len(),
            Err(ParseFailure::UnknownUnit) => spec_term(s@, pos as nat) == Parsed::<Expr>::BadUnit,
            Err(ParseFailure::Syntax) => spec_term(s@, pos as nat) == Parsed::<Expr>::Fail,
        },
    decreases s@.len() - pos, 1int,
{
    let (e0, p0) = match factor(s, pos) {
        Ok(v) => v,
        Err(f) => {
            return Err(f);
        },
    };
    let mut acc = e0;
    let mut cur: usize = p0;
    loop
        invariant
            pos < cur <= s@.len(),
            spec_term(s@, pos as nat) == spec_term_rest(s@, cur as nat, acc),
        decreases s@.len() - cur,
    {
        let p = skip_ws(s, cur);
        let n = s.unicode_len();
        if p < n {
            let c = s.get_char(p);
            if c == '*' || c == '/' {
                match factor(s, p + 1) {
                    Ok((rhs, p2)) => {
                        let op = if c == '*' {
                            Oper::Mul
                        } else {
                            Oper::Div
                        };
                        acc = op.apply(acc, rhs);
                        cur = p2;
                    },
                    Err(ParseFailure::Syntax) => {
                        return Ok((acc, cur));
                    },
                    Err(ParseFailure::UnknownUnit) => {
                        return Err(ParseFailure::UnknownUnit);
                    },
                }
            } else {
                return Ok((acc, cur));
            }
        } else {
            return Ok((acc, cur));
        }
    }
}

/// Parses an expression: a term and its `+` / `-` tail, left-associative.
pub(crate) fn expr(s: &str, pos: usize) -> (r: Result<(Expr, usize), ParseFailure>)
    requires
        pos <= s@.len(),
    ensures
        match r {
            Ok((e, p)) => spec_expr(s@, pos as nat) == Parsed::Found(e, p as nat) && pos < p
                <= s@.len(),
            Err(ParseFailure::UnknownUnit) => spec_expr(s@, pos as nat) == Parsed::<Expr>::BadUnit,
            Err(ParseFailure::Syntax) => spec_expr(s@, pos as nat) == Parsed::<Expr>::Fail,
        },
    decreases s@.len() - pos, 2int,
{
    let (e0, p0) = match term(s, pos) {
        Ok(v) => v,
        Err(f) => {
            return Err(f);
        },
    };
    let mut acc = e0;
    let mut cur: usize = p0;
    loop
        invariant
            pos < cur <= s@.len(),
            spec_expr(s@, pos as nat) == spec_expr_rest(s@, cur as nat, acc),
        decreases s@.len() - cur,
    {
        let p = skip_ws(s, cur);
        let n = s.unicode_len();
        if p < n {
            let c = s.get_char(p);
            if c == '+' || c == '-' {
                match term(s, p + 1) {
                    Ok((rhs, p2)) => {
                        let op = if c == '+' {
                            Oper::Add
                        } else {
                            Oper::Sub
                        };
                        acc = op.apply(acc, rhs);
                        cur = p2;
                    },
                    Err(ParseFailure::Syntax) => {
                        return Ok((acc, cur));
                    },
                    Err(ParseFailure::UnknownUnit) => {
                        return Err(ParseFailure::UnknownUnit);
                    },
                }
            } else {
                return Ok((acc, cur));
            }
        } else {
            return Ok((acc, cur));
        }
    }
}

/// The raw input with the implicit outermost parentheses around it: what the
/// entry point actually parses.
pub open spec fn spec_wrapped_input(input: Seq<char>) -> Seq<char> {
    seq!['('] + input + seq![')']
}

/// Evaluates a whole physical expression.
///
/// The raw input is first wrapped in an implicit outermost `(` … `)`, so a
/// bare top-level expression parses uniformly with a parenthesized one. The
/// result is `Ok` exactly when the wrapped text parses as one expression, is
/// consumed in full, and evaluates without a dimension error. A partial parse
/// fails with `ParseError` carrying the wrapped text's unconsumed remainder;
/// a wrapped text that does not parse at all fails with `ParseError` carrying
/// the raw input; a unit symbol outside the table fails with
/// `UnknownUnitSymbol`.
pub fn evaluate_physical_equation(input: &str) -> (r: Result<ConcreteNumber, CustomError>)
    ensures
        ({
            let w = spec_wrapped_input(input@);
            match spec_expr(w, 0) {
                Parsed::Found(e, p) => if p == w.len() {
                    r == crate::expr::spec_evaluate(e)
                } else {
                    r matches Err(CustomError::ParseError(msg)) && msg@ == w.skip(p as int)
                },
                Parsed::Fail => r matches Err(CustomError::ParseError(msg)) && msg@ == input@,
                Parsed::BadUnit => r == Err::<ConcreteNumber, CustomError>(
                    CustomError::UnknownUnitSymbol,
                ),
            }
        }),
{
    let mut wrapped = String::from_str("(");
    wrapped.append(input);
    wrapped.append(")");
    proof {
        reveal_strlit("(");
        reveal_strlit(")");
        assert("("@ =~= seq!['(']);
        assert(")"@ =~= seq![')']);
        assert(wrapped@ =~= spec_wrapped_input(input@));
    }
    let w = wrapped.as_str();
    match expr(w, 0) {
        Ok((e, p)) => {
            let n = w.unicode_len();
            if p == n {
                e.evaluate()
            } else {
                proof {
                    assert(w@.skip(p as int) =~= w@.subrange(p as int, w@.len() as int));
                }
                let rest = w.substring_char(p, n);
                Err(CustomError::ParseError(String::from_str(rest)))
            }
        },
        Err(ParseFailure::Syntax) => Err(CustomError::ParseError(String::from_str(input))),
        Err(ParseFailure::UnknownUnit) => Err(CustomError::UnknownUnitSymbol),
    }
}

} // verus!
