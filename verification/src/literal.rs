//! Source-form literals: the un-typed values an expression carries
//! before any binding to the runtime type domain.

use core::cmp::Ordering;
use vstd::prelude::*;

use crate::compare::{int_cmp, lex_cmp, i64_cmp, str_cmp};
use crate::error::EvaluateError;
use crate::numeric::{
    apply_i64, i64_arith, i64_dec, i64_to_text, parse_i64, str_to_i64, ArithOp,
};

verus! {

/// A literal as written in the source expression. The algebra handles
/// the two kinds that take part in comparison and arithmetic: numeric
/// text and the inner text of a single-quoted string.
#[derive(Debug)]
pub enum Literal {
    /// Numeric text, kept exactly as written (`"3"`, `"-17"`).
    Number(String),
    /// The inner text of a single-quoted string literal.
    QuotedString(String),
}

/// Mathematical image of a [`Literal`]: the kind plus the character
/// sequence of its text.
pub enum LitModel {
    Num(Seq<char>),
    Text(Seq<char>),
}

impl View for Literal {
    type V = LitModel;

    open spec fn view(&self) -> LitModel {
        match self {
            Literal::Number(s) => LitModel::Num(s@),
            Literal::QuotedString(s) => LitModel::Text(s@),
        }
    }
}

/// Literal equality: same kind and same text.
pub open spec fn lit_eq(a: LitModel, b: LitModel) -> bool {
    match (a, b) {
        (LitModel::Num(x), LitModel::Num(y)) => x == y,
        (LitModel::Text(x), LitModel::Text(y)) => x == y,
        _ => false,
    }
}

impl Literal {
    /// Structural equality of two literals.
    pub fn eq_literal(&self, other: &Literal) -> (r: bool)
        ensures
            r == lit_eq(self@, other@),
    {
        match (self, other) {
            (Literal::Number(x), Literal::Number(y)) => x.eq(y),
            (Literal::QuotedString(x), Literal::QuotedString(y)) => x.eq(y),
            _ => false,
        }
    }
}

/// Equality between a literal and bare string text: only a string
/// literal with the same characters is equal; any other literal kind is
/// unequal.
pub open spec fn lit_text_eq(l: LitModel, s: Seq<char>) -> bool {
    match l {
        LitModel::Text(t) => t == s,
        _ => false,
    }
}

impl Literal {
    /// Equality against bare string text, as [`lit_text_eq`] prescribes.
    pub fn eq_text(&self, s: &str) -> (r: bool)
        ensures
            r == lit_text_eq(self@, s@),
    {
        match self {
            Literal::QuotedString(t) => crate::compare::str_eq(t.as_str(), s),
            Literal::Number(_) => false,
        }
    }
}

/// Partial order between two literals: numeric text compares by its
/// 64-bit value and is absent when either side has no such value;
/// string text compares lexicographically; mixed kinds are incomparable.
pub open spec fn lit_cmp(a: LitModel, b: LitModel) -> Option<Ordering> {
    match (a, b) {
        (LitModel::Num(x), LitModel::Num(y)) => match (parse_i64(x), parse_i64(y)) {
            (Some(p), Some(q)) => Some(int_cmp(p as int, q as int)),
            _ => None,
        },
        (LitModel::Text(x), LitModel::Text(y)) => Some(lex_cmp(x, y)),
        _ => None,
    }
}

/// Three-way comparison of two literals, absent where [`lit_cmp`]
/// declares them incomparable.
pub fn literal_partial_cmp(a: &Literal, b: &Literal) -> (r: Option<Ordering>)
    ensures
        r == lit_cmp(a@, b@),
{
    match (a, b) {
        (Literal::Number(x), Literal::Number(y)) => {
            match (str_to_i64(x.as_str()), str_to_i64(y.as_str())) {
                (Some(p), Some(q)) => Some(i64_cmp(p, q)),
                _ => None,
            }
        },
        (Literal::QuotedString(x), Literal::QuotedString(y)) => {
            Some(str_cmp(x.as_str(), y.as_str()))
        },
        _ => None,
    }
}

/// What literal arithmetic means: both operands must be numeric text
/// denoting 64-bit integers, and the result is the canonical numeric
/// text of the operator's exact result. Any other pairing — a string
/// literal, or numeric text with no 64-bit meaning — is the recoverable
/// error `UnreachableLiteralArithmetic`; division by zero and overflow
/// keep their own errors.
pub open spec fn lit_arith(op: ArithOp, a: LitModel, b: LitModel) -> Result<
    LitModel,
    EvaluateError,
> {
    match (a, b) {
        (LitModel::Num(x), LitModel::Num(y)) => match (parse_i64(x), parse_i64(y)) {
            (Some(p), Some(q)) => match i64_arith(op, p, q) {
                Ok(v) => Ok(LitModel::Num(i64_dec(v as int))),
                Err(e) => Err(e),
            },
            _ => Err(EvaluateError::UnreachableLiteralArithmetic),
        },
        _ => Err(EvaluateError::UnreachableLiteralArithmetic),
    }
}

/// The image of a literal arithmetic result.
pub open spec fn lit_result_model(r: Result<Literal, EvaluateError>) -> Result<
    LitModel,
    EvaluateError,
> {
    match r {
        Ok(l) => Ok(l@),
        Err(e) => Err(e),
    }
}

/// Apply one operator to two literals, as [`lit_arith`] prescribes.
pub fn literal_arith(op: ArithOp, a: &Literal, b: &Literal) -> (r: Result<
    Literal,
    EvaluateError,
>)
    ensures
        lit_result_model(r) == lit_arith(op, a@, b@),
{
    match (a, b) {
        (Literal::Number(x), Literal::Number(y)) => {
            match (str_to_i64(x.as_str()), str_to_i64(y.as_str())) {
                (Some(p), Some(q)) => match apply_i64(op, p, q) {
                    Ok(v) => Ok(Literal::Number(i64_to_text(v))),
                    Err(e) => Err(e),
                },
                _ => Err(EvaluateError::UnreachableLiteralArithmetic),
            }
        },
        _ => Err(EvaluateError::UnreachableLiteralArithmetic),
    }
}

} // verus!
