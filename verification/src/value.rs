//! The typed runtime value domain: values already bound to a type, as
//! stored in a row or produced by earlier computation.

use core::cmp::Ordering;
use vstd::prelude::*;

use crate::compare::{int_cmp, lex_cmp, i64_cmp, str_cmp, str_eq};
use crate::error::EvaluateError;
use crate::literal::{LitModel, Literal};
use crate::numeric::{apply_i64, i64_arith, parse_i64, str_to_i64, ArithOp};

verus! {

/// A typed runtime value. The domain is deliberately small — a 64-bit
/// signed integer and a text value — and carries its whole capability
/// set: equality, partial order, the four arithmetic operators, and
/// construction from a literal using a peer value as the type template.
#[derive(Debug)]
pub enum TypedValue {
    Integer(i64),
    Text(String),
}

/// Mathematical image of a [`TypedValue`].
pub enum ValModel {
    Int(i64),
    Txt(Seq<char>),
}

impl View for TypedValue {
    type V = ValModel;

    open spec fn view(&self) -> ValModel {
        match self {
            TypedValue::Integer(i) => ValModel::Int(*i),
            TypedValue::Text(s) => ValModel::Txt(s@),
        }
    }
}

/// Typed equality: same type and same content.
pub open spec fn val_eq(a: ValModel, b: ValModel) -> bool {
    match (a, b) {
        (ValModel::Int(x), ValModel::Int(y)) => x == y,
        (ValModel::Txt(x), ValModel::Txt(y)) => x == y,
        _ => false,
    }
}

/// Partial order inside the typed domain: integers by value, text
/// lexicographically, different types incomparable.
pub open spec fn val_cmp(a: ValModel, b: ValModel) -> Option<Ordering> {
    match (a, b) {
        (ValModel::Int(x), ValModel::Int(y)) => Some(int_cmp(x as int, y as int)),
        (ValModel::Txt(x), ValModel::Txt(y)) => Some(lex_cmp(x, y)),
        _ => None,
    }
}

/// Equality between a typed value and a literal: an integer equals
/// numeric text denoting the same value, a text value equals string
/// text with the same characters, every other pairing is unequal.
pub open spec fn val_lit_eq(v: ValModel, l: LitModel) -> bool {
    match (v, l) {
        (ValModel::Int(i), LitModel::Num(s)) => parse_i64(s) == Some(i),
        (ValModel::Txt(t), LitModel::Text(s)) => t == s,
        _ => false,
    }
}

/// Partial order between a typed value and a literal, coercing the
/// literal side through its raw text: absent when the literal has no
/// value in the typed peer's type.
pub open spec fn val_lit_cmp(v: ValModel, l: LitModel) -> Option<Ordering> {
    match (v, l) {
        (ValModel::Int(i), LitModel::Num(s)) => match parse_i64(s) {
            Some(p) => Some(int_cmp(i as int, p as int)),
            None => None,
        },
        (ValModel::Txt(t), LitModel::Text(s)) => Some(lex_cmp(t, s)),
        _ => None,
    }
}

/// Equality between a typed value and bare string text: only a text
/// value with the same characters is equal.
pub open spec fn val_text_eq(v: ValModel, s: Seq<char>) -> bool {
    match v {
        ValModel::Txt(t) => t == s,
        _ => false,
    }
}

/// Partial order between a typed value (left) and bare string text
/// (right): lexicographic for a text value, absent otherwise.
pub open spec fn val_text_cmp(v: ValModel, s: Seq<char>) -> Option<Ordering> {
    match v {
        ValModel::Txt(t) => Some(lex_cmp(t, s)),
        _ => None,
    }
}

/// Partial order between bare string text (left) and a typed value
/// (right): lexicographic for a text value, absent otherwise.
pub open spec fn text_val_cmp(s: Seq<char>, v: ValModel) -> Option<Ordering> {
    match v {
        ValModel::Txt(t) => Some(lex_cmp(s, t)),
        _ => None,
    }
}

/// Constructing a value of the peer's own type from a literal: numeric
/// text into an integer peer, string text into a text peer. Every
/// other pairing — and numeric text with no 64-bit meaning — fails.
pub open spec fn val_coerce(v: ValModel, l: LitModel) -> Result<ValModel, EvaluateError> {
    match (v, l) {
        (ValModel::Int(_), LitModel::Num(s)) => match parse_i64(s) {
            Some(p) => Ok(ValModel::Int(p)),
            None => Err(EvaluateError::LiteralCoercionFailed),
        },
        (ValModel::Txt(_), LitModel::Text(s)) => Ok(ValModel::Txt(s)),
        _ => Err(EvaluateError::LiteralCoercionFailed),
    }
}

/// Arithmetic inside the typed domain: exact 64-bit integer arithmetic
/// between two integers; any text operand refuses with
/// `NonNumericArithmetic`.
pub open spec fn val_arith(op: ArithOp, a: ValModel, b: ValModel) -> Result<
    ValModel,
    EvaluateError,
> {
    match (a, b) {
        (ValModel::Int(x), ValModel::Int(y)) => match i64_arith(op, x, y) {
            Ok(v) => Ok(ValModel::Int(v)),
            Err(e) => Err(e),
        },
        _ => Err(EvaluateError::NonNumericArithmetic),
    }
}

/// The image of a typed arithmetic or coercion result.
pub open spec fn val_result_model(r: Result<TypedValue, EvaluateError>) -> Result<
    ValModel,
    EvaluateError,
> {
    match r {
        Ok(v) => Ok(v@),
        Err(e) => Err(e),
    }
}

impl TypedValue {
    /// Equality inside the typed domain.
    pub fn eq_value(&self, other: &TypedValue) -> (r: bool)
        ensures
            r == val_eq(self@, other@),
    {
        match (self, other) {
            (TypedValue::Integer(x), TypedValue::Integer(y)) => *x == *y,
            (TypedValue::Text(x), TypedValue::Text(y)) => x.eq(y),
            _ => false,
        }
    }

    /// Three-way comparison inside the typed domain, absent between
    /// different types.
    pub fn cmp_value(&self, other: &TypedValue) -> (r: Option<Ordering>)
        ensures
            r == val_cmp(self@, other@),
    {
        match (self, other) {
            (TypedValue::Integer(x), TypedValue::Integer(y)) => Some(i64_cmp(*x, *y)),
            (TypedValue::Text(x), TypedValue::Text(y)) => Some(str_cmp(x.as_str(), y.as_str())),
            _ => None,
        }
    }

    /// Equality against a literal, as [`val_lit_eq`] prescribes.
    pub fn eq_literal(&self, lit: &Literal) -> (r: bool)
        ensures
            r == val_lit_eq(self@, lit@),
    {
        match (self, lit) {
            (TypedValue::Integer(i), Literal::Number(s)) => match str_to_i64(s.as_str()) {
                Some(p) => *i == p,
                None => false,
            },
            (TypedValue::Text(t), Literal::QuotedString(s)) => str_eq(t.as_str(), s.as_str()),
            _ => false,
        }
    }

    /// Three-way comparison against a literal, as [`val_lit_cmp`]
    /// prescribes.
    pub fn cmp_literal(&self, lit: &Literal) -> (r: Option<Ordering>)
        ensures
            r == val_lit_cmp(self@, lit@),
    {
        match (self, lit) {
            (TypedValue::Integer(i), Literal::Number(s)) => match str_to_i64(s.as_str()) {
                Some(p) => Some(i64_cmp(*i, p)),
                None => None,
            },
            (TypedValue::Text(t), Literal::QuotedString(s)) => {
                Some(str_cmp(t.as_str(), s.as_str()))
            },
            _ => None,
        }
    }

    /// Equality against bare string text, as [`val_text_eq`] prescribes.
    pub fn eq_text(&self, s: &str) -> (r: bool)
        ensures
            r == val_text_eq(self@, s@),
    {
        match self {
            TypedValue::Text(t) => str_eq(t.as_str(), s),
            TypedValue::Integer(_) => false,
        }
    }

    /// Three-way comparison against bare string text on the right, as
    /// [`val_text_cmp`] prescribes.
    pub fn cmp_text(&self, s: &str) -> (r: Option<Ordering>)
        ensures
            r == val_text_cmp(self@, s@),
    {
        match self {
            TypedValue::Text(t) => Some(str_cmp(t.as_str(), s)),
            TypedValue::Integer(_) => None,
        }
    }

    /// Construct a value of `self`'s type from a literal, failing as
    /// [`val_coerce`] prescribes.
    pub fn coerce_literal(&self, lit: &Literal) -> (r: Result<TypedValue, EvaluateError>)
        ensures
            val_result_model(r) == val_coerce(self@, lit@),
    {
        match (self, lit) {
            (TypedValue::Integer(_), Literal::Number(s)) => match str_to_i64(s.as_str()) {
                Some(p) => Ok(TypedValue::Integer(p)),
                None => Err(EvaluateError::LiteralCoercionFailed),
            },
            (TypedValue::Text(_), Literal::QuotedString(s)) => Ok(TypedValue::Text(s.clone())),
            _ => Err(EvaluateError::LiteralCoercionFailed),
        }
    }

    /// Apply one operator inside the typed domain, as [`val_arith`]
    /// prescribes.
    pub fn arith(&self, op: ArithOp, other: &TypedValue) -> (r: Result<
        TypedValue,
        EvaluateError,
    >)
        ensures
            val_result_model(r) == val_arith(op, self@, other@),
    {
        match (self, other) {
            (TypedValue::Integer(x), TypedValue::Integer(y)) => match apply_i64(op, *x, *y) {
                Ok(v) => Ok(TypedValue::Integer(v)),
                Err(e) => Err(e),
            },
            _ => Err(EvaluateError::NonNumericArithmetic),
        }
    }
}

/// Three-way comparison of bare string text against a typed value, as
/// [`text_val_cmp`] prescribes.
pub fn text_cmp_value(s: &str, v: &TypedValue) -> (r: Option<Ordering>)
    ensures
        r == text_val_cmp(s@, v@),
{
    match v {
        TypedValue::Text(t) => Some(str_cmp(s, t.as_str())),
        TypedValue::Integer(_) => None,
    }
}

} // verus!
