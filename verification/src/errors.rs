//! The error taxonomy: a flat enumeration covering grammar failures, unknown
//! unit symbols, dimension mismatches on addition and subtraction, and the
//! collapsed failure of a sub-expression.

use vstd::prelude::*;

verus! {

/// Everything that can go wrong while parsing or evaluating an expression.
#[derive(Debug)]
pub enum CustomError {
    /// An addition combined two quantities of different dimensions.
    AddingTwoDifferentUnits,
    /// A subtraction combined two quantities of different dimensions.
    SubtractingTwoDifferentUnits,
    /// A child of a binary node failed to evaluate; the inner cause is
    /// deliberately collapsed.
    SubExpressionError,
    /// The input does not match the grammar, or was not consumed in full; the
    /// payload holds the offending text.
    ParseError(String),
    /// A unit token's symbol is not in the unit table.
    UnknownUnitSymbol,
}

impl PartialEq for CustomError {
    fn eq(&self, other: &CustomError) -> (r: bool) {
        match (self, other) {
            (CustomError::AddingTwoDifferentUnits, CustomError::AddingTwoDifferentUnits) => true,
            (
                CustomError::SubtractingTwoDifferentUnits,
                CustomError::SubtractingTwoDifferentUnits,
            ) => true,
            (CustomError::SubExpressionError, CustomError::SubExpressionError) => true,
            (CustomError::ParseError(a), CustomError::ParseError(b)) => a.eq(b),
            (CustomError::UnknownUnitSymbol, CustomError::UnknownUnitSymbol) => true,
            _ => false,
        }
    }
}

impl vstd::std_specs::cmp::PartialEqSpecImpl for CustomError {
    open spec fn obeys_eq_spec() -> bool {
        true
    }

    open spec fn eq_spec(&self, other: &CustomError) -> bool {
        match (self, other) {
            (CustomError::AddingTwoDifferentUnits, CustomError::AddingTwoDifferentUnits) => true,
            (
                CustomError::SubtractingTwoDifferentUnits,
                CustomError::SubtractingTwoDifferentUnits,
            ) => true,
            (CustomError::SubExpressionError, CustomError::SubExpressionError) => true,
            (CustomError::ParseError(a), CustomError::ParseError(b)) => a@ == b@,
            (CustomError::UnknownUnitSymbol, CustomError::UnknownUnitSymbol) => true,
            _ => false,
        }
    }
}

} // verus!
