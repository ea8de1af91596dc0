//! Constant range expressions and their evaluator.
//!
//! A range endpoint is a tree of integer literals under negation, bitwise
//! complement, and the eight supported binary operators. `evaluate` computes
//! its exact arbitrary-precision value, or reports division by zero or an
//! unsupported node, each positioned against the offending fragment.

use crate::big::{
    big_add, big_and, big_div, big_mul, big_or, big_rem, big_sub, big_xor, BigValue,
};
use crate::intmath::{and_bits, not_bits, or_bits, trunc_div, trunc_rem, xor_bits};
use vstd::prelude::*;

verus! {

/// A unary operator of a range expression; shapes outside the supported set
/// are carried as `Other` so the evaluator can reject them in place.
#[derive(Clone, Copy, Debug, PartialEq, Eq, Structural)]
pub enum UnaryOp {
    /// Arithmetic negation.
    Neg,
    /// Bitwise complement.
    Not,
    /// Any unary operator outside the supported set.
    Other,
}

/// A binary operator of a range expression.
#[derive(Clone, Copy, Debug, PartialEq, Eq, Structural)]
pub enum BinaryOp {
    /// Addition.
    Add,
    /// Subtraction.
    Sub,
    /// Multiplication.
    Mul,
    /// Division truncating toward zero.
    Div,
    /// Remainder of truncating division.
    Rem,
    /// Bitwise exclusive or.
    BitXor,
    /// Bitwise and.
    BitAnd,
    /// Bitwise or.
    BitOr,
    /// Any binary operator outside the supported set.
    Other,
}

/// A constant expression tree. Every node carries a caller-assigned position
/// so an error can be reported against the offending fragment.
#[derive(Debug)]
pub enum RangeExpr {
    /// An exact integer literal.
    Lit { pos: u64, value: BigValue },
    /// A unary operator applied to a subexpression.
    Unary { pos: u64, op: UnaryOp, operand: Box<RangeExpr> },
    /// A binary operator applied to two subexpressions.
    Binary { pos: u64, op: BinaryOp, left: Box<RangeExpr>, right: Box<RangeExpr> },
    /// A parenthesized or grouped subexpression, transparent to evaluation.
    Paren { pos: u64, inner: Box<RangeExpr> },
    /// Any expression shape outside the supported set: a call, a field
    /// access, a non-integer literal, and the like.
    Unsupported { pos: u64 },
}

/// Why evaluation failed, positioned against the offending node.
#[derive(Clone, Copy, Debug, PartialEq, Eq, Structural)]
pub enum EvalError {
    /// A division or remainder whose right operand evaluated to zero.
    DivisionByZero {
        /// Position of the offending division node.
        pos: u64,
    },
    /// A node outside the supported expression shapes.
    UnsupportedExpression {
        /// Position of the offending node.
        pos: u64,
    },
}

/// The exact mathematical outcome of evaluating an expression: operands are
/// evaluated left to right, and the first error wins.
pub open spec fn eval_spec(e: RangeExpr) -> Result<int, EvalError>
    decreases e,
{
    match e {
        RangeExpr::Lit { pos, value } => Ok(value.as_int()),
        RangeExpr::Unary { pos, op, operand } => match eval_spec(*operand) {
            Err(err) => Err(err),
            Ok(v) => match op {
                UnaryOp::Neg => Ok(-v),
                UnaryOp::Not => Ok(not_bits(v)),
                UnaryOp::Other => Err(EvalError::UnsupportedExpression { pos }),
            },
        },
        RangeExpr::Binary { pos, op, left, right } => match eval_spec(*left) {
            Err(err) => Err(err),
            Ok(l) => match eval_spec(*right) {
                Err(err) => Err(err),
                Ok(r) => match op {
                    BinaryOp::Add => Ok(l + r),
                    BinaryOp::Sub => Ok(l - r),
                    BinaryOp::Mul => Ok(l * r),
                    BinaryOp::Div => if r == 0 {
                        Err(EvalError::DivisionByZero { pos })
                    } else {
                        Ok(trunc_div(l, r))
                    },
                    BinaryOp::Rem => if r == 0 {
                        Err(EvalError::DivisionByZero { pos })
                    } else {
                        Ok(trunc_rem(l, r))
                    },
                    BinaryOp::BitXor => Ok(xor_bits(l, r)),
                    BinaryOp::BitAnd => Ok(and_bits(l, r)),
                    BinaryOp::BitOr => Ok(or_bits(l, r)),
                    BinaryOp::Other => Err(EvalError::UnsupportedExpression { pos }),
                },
            },
        },
        RangeExpr::Paren { pos, inner } => eval_spec(*inner),
        RangeExpr::Unsupported { pos } => Err(EvalError::UnsupportedExpression { pos }),
    }
}

/// Evaluates a constant expression to its exact arbitrary-precision value.
///
/// The result is the mathematical value of the tree: addition, subtraction
/// and multiplication are exact; division and remainder truncate toward zero
/// and fail with `DivisionByZero` on a zero right operand at any depth; the
/// bitwise operators act on the two's-complement form; any unsupported node
/// fails with `UnsupportedExpression`.
pub fn evaluate(e: &RangeExpr) -> (r: Result<BigValue, EvalError>)
    ensures
        match r {
            Ok(v) => eval_spec(*e) == Ok::<int, EvalError>(v.as_int()),
            Err(err) => eval_spec(*e) == Err::<int, EvalError>(err),
        },
    decreases *e,
{
    match e {
        RangeExpr::Lit { pos: _, value } => Ok(value.clone_value()),
        RangeExpr::Unary { pos, op, operand } => {
            let v = match evaluate(operand) {
                Ok(v) => v,
                Err(err) => {
                    return Err(err);
                },
            };
            match op {
                UnaryOp::Neg => Ok(v.negated()),
                UnaryOp::Not => {
                    let one = BigValue::from_u128(1);
                    Ok(big_add(&v, &one).negated())
                },
                UnaryOp::Other => Err(EvalError::UnsupportedExpression { pos: *pos }),
            }
        },
        RangeExpr::Binary { pos, op, left, right } => {
            let l = match evaluate(left) {
                Ok(v) => v,
                Err(err) => {
                    return Err(err);
                },
            };
            let r = match evaluate(right) {
                Ok(v) => v,
                Err(err) => {
                    return Err(err);
                },
            };
            match op {
                BinaryOp::Add => Ok(big_add(&l, &r)),
                BinaryOp::Sub => Ok(big_sub(&l, &r)),
                BinaryOp::Mul => Ok(big_mul(&l, &r)),
                BinaryOp::Div => {
                    if r.is_zero() {
                        Err(EvalError::DivisionByZero { pos: *pos })
                    } else {
                        Ok(big_div(&l, &r))
                    }
                },
                BinaryOp::Rem => {
                    if r.is_zero() {
                        Err(EvalError::DivisionByZero { pos: *pos })
                    } else {
                        Ok(big_rem(&l, &r))
                    }
                },
                BinaryOp::BitXor => Ok(big_xor(&l, &r)),
                BinaryOp::BitAnd => Ok(big_and(&l, &r)),
                BinaryOp::BitOr => Ok(big_or(&l, &r)),
                BinaryOp::Other => Err(EvalError::UnsupportedExpression { pos: *pos }),
            }
        },
        RangeExpr::Paren { pos: _, inner } => evaluate(inner),
        RangeExpr::Unsupported { pos } => Err(EvalError::UnsupportedExpression { pos: *pos }),
    }
}

} // verus!
