//! Evaluation of arithmetic expressions over physically dimensioned numbers.
//!
//! A quantity couples a binary64 magnitude (carried as its IEEE-754 bit
//! pattern) with a vector of the seven SI base-dimension exponents. The
//! library parses an infix expression such as `15 N m * 12 kg * 92` into an
//! expression tree and reduces it to a single quantity, enforcing that only
//! like-dimensioned quantities are added or subtracted.

pub mod dimension;
pub mod errors;
pub mod expr;
pub mod float_bits;
pub mod format;
pub mod laws;
pub mod parse;
pub mod quantity;
pub mod scan;
pub mod units;

pub use dimension::PhysicalQuantity;
pub use dimension::PhysicalQuantityBuilder;
pub use errors::CustomError;
pub use expr::Expr;
pub use expr::Oper;
pub use parse::combined_unit;
pub use parse::concrete_number;
pub use parse::evaluate_physical_equation;
pub use parse::get_concrete_number_as_tuple;
pub use parse::unit_as_tuple;
pub use parse::ParseFailure;
pub use scan::word;
pub use quantity::ConcreteNumber;
pub use quantity::ConcreteNumberBuilder;
