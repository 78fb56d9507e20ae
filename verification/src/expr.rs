//! The expression tree and its reduction to a single quantity.
//!
//! Addition and subtraction surface a dimension mismatch as their own error;
//! a failure inside either child of a binary node is collapsed into the
//! single `SubExpressionError`, deliberately discarding which child failed
//! and why. Parentheses are transparent.

use crate::errors::CustomError;
use crate::quantity::{spec_cn_add, spec_cn_div, spec_cn_mul, spec_cn_sub, ConcreteNumber};
use vstd::prelude::*;

verus! {

/// A node of the expression tree. Each node owns its children outright.
pub enum Expr {
    Value(ConcreteNumber),
    Add(Box<Expr>, Box<Expr>),
    Sub(Box<Expr>, Box<Expr>),
    Mul(Box<Expr>, Box<Expr>),
    Div(Box<Expr>, Box<Expr>),
    Paren(Box<Expr>),
}

impl Clone for Expr {
    /// A clone equals the tree it was cloned from.
    fn clone(&self) -> (res: Self)
        ensures
            res == *self,
        decreases self,
    {
        match self {
            Expr::Value(cn) => Expr::Value(*cn),
            Expr::Add(a, b) => Expr::Add(Box::new((**a).clone()), Box::new((**b).clone())),
            Expr::Sub(a, b) => Expr::Sub(Box::new((**a).clone()), Box::new((**b).clone())),
            Expr::Mul(a, b) => Expr::Mul(Box::new((**a).clone()), Box::new((**b).clone())),
            Expr::Div(a, b) => Expr::Div(Box::new((**a).clone()), Box::new((**b).clone())),
            Expr::Paren(inner) => Expr::Paren(Box::new((**inner).clone())),
        }
    }
}

/// A binary operator of the grammar.
#[derive(Debug)]
pub enum Oper {
    Add,
    Sub,
    Mul,
    Div,
}

/// The tree node an operator builds from its two operands.
pub open spec fn spec_apply_oper(op: Oper, lhs: Expr, rhs: Expr) -> Expr {
    match op {
        Oper::Add => Expr::Add(Box::new(lhs), Box::new(rhs)),
        Oper::Sub => Expr::Sub(Box::new(lhs), Box::new(rhs)),
        Oper::Mul => Expr::Mul(Box::new(lhs), Box::new(rhs)),
        Oper::Div => Expr::Div(Box::new(lhs), Box::new(rhs)),
    }
}

impl Oper {
    /// Builds this operator's tree node, folding the right operand onto an
    /// already-parsed left operand.
    pub fn apply(self, lhs: Expr, rhs: Expr) -> (r: Expr)
        ensures
            r == spec_apply_oper(self, lhs, rhs),
    {
        match self {
            Oper::Add => Expr::Add(Box::new(lhs), Box::new(rhs)),
            Oper::Sub => Expr::Sub(Box::new(lhs), Box::new(rhs)),
            Oper::Mul => Expr::Mul(Box::new(lhs), Box::new(rhs)),
            Oper::Div => Expr::Div(Box::new(lhs), Box::new(rhs)),
        }
    }
}

/// The value of an expression tree: a leaf's quantity; for a binary node the
/// combination of the children's values, `SubExpressionError` when either
/// child fails; a parenthesized expression's own value.
pub open spec fn spec_evaluate(e: Expr) -> Result<ConcreteNumber, CustomError>
    decreases e,
{
    match e {
        Expr::Value(cn) => Ok(cn),
        Expr::Add(a, b) => match (spec_evaluate(*a), spec_evaluate(*b)) {
            (Ok(x), Ok(y)) => spec_cn_add(x, y),
            _ => Err(CustomError::SubExpressionError),
        },
        Expr::Sub(a, b) => match (spec_evaluate(*a), spec_evaluate(*b)) {
            (Ok(x), Ok(y)) => spec_cn_sub(x, y),
            _ => Err(CustomError::SubExpressionError),
        },
        Expr::Mul(a, b) => match (spec_evaluate(*a), spec_evaluate(*b)) {
            (Ok(x), Ok(y)) => Ok(spec_cn_mul(x, y)),
            _ => Err(CustomError::SubExpressionError),
        },
        Expr::Div(a, b) => match (spec_evaluate(*a), spec_evaluate(*b)) {
            (Ok(x), Ok(y)) => Ok(spec_cn_div(x, y)),
            _ => Err(CustomError::SubExpressionError),
        },
        Expr::Paren(inner) => spec_evaluate(*inner),
    }
}

impl Expr {
    /// Reduces the tree to a single quantity, exactly as `spec_evaluate`
    /// describes: both children of a binary node are evaluated, and a failure
    /// of either is collapsed into `SubExpressionError`.
    pub fn evaluate(self) -> (r: Result<ConcreteNumber, CustomError>)
        ensures
            r == spec_evaluate(self),
        decreases self,
    {
        match self {
            Expr::Value(cn) => Ok(cn),
            Expr::Add(a, b) => {
                let ra = (*a).evaluate();
                let rb = (*b).evaluate();
                match (ra, rb) {
                    (Ok(x), Ok(y)) => x.add(y),
                    _ => Err(CustomError::SubExpressionError),
                }
            },
            Expr::Sub(a, b) => {
                let ra = (*a).evaluate();
                let rb = (*b).evaluate();
                match (ra, rb) {
                    (Ok(x), Ok(y)) => x.sub(y),
                    _ => Err(CustomError::SubExpressionError),
                }
            },
            Expr::Mul(a, b) => {
                let ra = (*a).evaluate();
                let rb = (*b).evaluate();
                match (ra, rb) {
                    (Ok(x), Ok(y)) => Ok(x.mul(y)),
                    _ => Err(CustomError::SubExpressionError),
                }
            },
            Expr::Div(a, b) => {
                let ra = (*a).evaluate();
                let rb = (*b).evaluate();
                match (ra, rb) {
                    (Ok(x), Ok(y)) => Ok(x.div(y)),
                    _ => Err(CustomError::SubExpressionError),
                }
            },
            Expr::Paren(inner) => (*inner).evaluate(),
        }
    }
}

} // verus!
