//! The evaluated-value representation and its algebra.

use core::cmp::Ordering;
use vstd::prelude::*;

use crate::compare::{flip_opt, lex_cmp, reverse_ordering, str_cmp, str_eq};
use crate::error::EvaluateError;
use crate::literal::{
    lit_arith, lit_cmp, lit_eq, lit_text_eq, literal_arith, literal_partial_cmp, LitModel, Literal,
};
use crate::numeric::ArithOp;
use crate::value::{
    text_cmp_value, text_val_cmp, val_arith, val_cmp, val_coerce, val_eq, val_lit_cmp, val_lit_eq,
    val_text_cmp, val_text_eq, TypedValue, ValModel,
};

verus! {

/// The result of reducing one expression node. The five variants are
/// two underlying domains — source-form literals and typed runtime
/// values — plus bare string text, each under the ownership mode that
/// lets the evaluator avoid copying when the source already holds a
/// usable representation.
///
/// Borrowed variants must not outlive what they borrow from (an AST
/// node, a row cell, a string slice); the lifetime parameter enforces
/// that. Everything arithmetic produces is owned, so no result ever
/// references an operand.
#[derive(Debug)]
pub enum Evaluated<'a> {
    /// A literal borrowed from the caller-held AST.
    LiteralRef(&'a Literal),
    /// A freshly computed, exclusively owned literal.
    Literal(Literal),
    /// The borrowed inner text of a string literal, carrying no type
    /// information beyond "is text".
    StringRef(&'a str),
    /// A typed value borrowed from its owner (for example a row cell).
    ValueRef(&'a TypedValue),
    /// A freshly computed, exclusively owned typed value.
    Value(TypedValue),
}

/// Mathematical image of an [`Evaluated`]: which representation is
/// active, and the image of what it holds.
pub enum EvModel {
    LitRef(LitModel),
    LitOwn(LitModel),
    StrRef(Seq<char>),
    ValRef(ValModel),
    ValOwn(ValModel),
}

impl<'a> View for Evaluated<'a> {
    type V = EvModel;

    open spec fn view(&self) -> EvModel {
        match self {
            Evaluated::LiteralRef(l) => EvModel::LitRef((*l)@),
            Evaluated::Literal(l) => EvModel::LitOwn(l@),
            Evaluated::StringRef(s) => EvModel::StrRef((*s)@),
            Evaluated::ValueRef(v) => EvModel::ValRef((*v)@),
            Evaluated::Value(v) => EvModel::ValOwn(v@),
        }
    }
}

/// The caller contract on equality: an owned literal is only ever a
/// fresh arithmetic result, and the evaluator never holds two of them
/// at once nor compares one against string text — the one pairing it
/// does build is owned literal against a borrowed typed value.
pub open spec fn eq_reachable(a: EvModel, b: EvModel) -> bool {
    &&& (a is LitOwn ==> b is ValRef)
    &&& (b is LitOwn ==> a is ValRef)
}

/// The literal a representation carries, whatever its ownership mode.
pub open spec fn lit_of(m: EvModel) -> Option<LitModel> {
    match m {
        EvModel::LitRef(l) => Some(l),
        EvModel::LitOwn(l) => Some(l),
        _ => None,
    }
}

/// The typed value a representation carries, whatever its ownership
/// mode.
pub open spec fn val_of(m: EvModel) -> Option<ValModel> {
    match m {
        EvModel::ValRef(v) => Some(v),
        EvModel::ValOwn(v) => Some(v),
        _ => None,
    }
}

/// Equality over the representation matrix. Same-domain pairs compare
/// by their domain's own equality, ownership mode never matters; bare
/// string text equals only a string literal or a text value with the
/// same characters. Pairings that [`eq_reachable`] rules out are never
/// asked for and read as unequal here.
pub open spec fn spec_equals(a: EvModel, b: EvModel) -> bool
    recommends
        eq_reachable(a, b),
{
    match (a, b) {
        (EvModel::LitRef(l), EvModel::LitRef(r)) => lit_eq(l, r),
        (EvModel::LitRef(l), EvModel::StrRef(s)) => lit_text_eq(l, s),
        (EvModel::LitRef(l), EvModel::ValRef(v)) => val_lit_eq(v, l),
        (EvModel::LitRef(l), EvModel::ValOwn(v)) => val_lit_eq(v, l),
        (EvModel::LitRef(_), EvModel::LitOwn(_)) => false,
        (EvModel::LitOwn(l), EvModel::ValRef(v)) => val_lit_eq(v, l),
        (EvModel::LitOwn(_), _) => false,
        (EvModel::StrRef(s), EvModel::LitRef(l)) => lit_text_eq(l, s),
        (EvModel::StrRef(x), EvModel::StrRef(y)) => x == y,
        (EvModel::StrRef(s), EvModel::ValRef(v)) => val_text_eq(v, s),
        (EvModel::StrRef(s), EvModel::ValOwn(v)) => val_text_eq(v, s),
        (EvModel::StrRef(_), EvModel::LitOwn(_)) => false,
        (EvModel::ValRef(v), EvModel::LitRef(l)) => val_lit_eq(v, l),
        (EvModel::ValRef(v), EvModel::LitOwn(l)) => val_lit_eq(v, l),
        (EvModel::ValRef(v), EvModel::StrRef(s)) => val_text_eq(v, s),
        (EvModel::ValRef(v), EvModel::ValRef(w)) => val_eq(v, w),
        (EvModel::ValRef(v), EvModel::ValOwn(w)) => val_eq(v, w),
        (EvModel::ValOwn(v), EvModel::LitRef(l)) => val_lit_eq(v, l),
        (EvModel::ValOwn(v), EvModel::StrRef(s)) => val_text_eq(v, s),
        (EvModel::ValOwn(v), EvModel::ValRef(w)) => val_eq(v, w),
        (EvModel::ValOwn(v), EvModel::ValOwn(w)) => val_eq(v, w),
        (EvModel::ValOwn(_), EvModel::LitOwn(_)) => false,
    }
}

/// Partial order over the representation matrix, total in the sense
/// that every pairing has a defined answer, possibly "incomparable".
/// Literals compare as literals whatever their ownership; a literal
/// against a typed value delegates to the typed side and mirrors the
/// answer; bare string text compares only against string text sources.
pub open spec fn spec_compare(a: EvModel, b: EvModel) -> Option<Ordering> {
    match (a, b) {
        (EvModel::StrRef(x), EvModel::StrRef(y)) => Some(lex_cmp(x, y)),
        (EvModel::StrRef(s), EvModel::ValRef(v)) => text_val_cmp(s, v),
        (EvModel::StrRef(s), EvModel::ValOwn(v)) => text_val_cmp(s, v),
        (EvModel::StrRef(_), _) => None,
        (EvModel::ValRef(v), EvModel::StrRef(s)) => val_text_cmp(v, s),
        (EvModel::ValOwn(v), EvModel::StrRef(s)) => val_text_cmp(v, s),
        (_, EvModel::StrRef(_)) => None,
        _ => match (lit_of(a), val_of(a), lit_of(b), val_of(b)) {
            (Some(l), _, Some(r), _) => lit_cmp(l, r),
            (Some(l), _, _, Some(v)) => flip_opt(val_lit_cmp(v, l)),
            (_, Some(v), Some(l), _) => val_lit_cmp(v, l),
            (_, Some(v), _, Some(w)) => val_cmp(v, w),
            _ => None,
        },
    }
}

/// Arithmetic over the representation matrix. Bare string text is
/// never a valid operand and reports the invariant fault; two literals
/// use literal arithmetic; a literal beside a typed value is coerced
/// into the peer's type and the typed domain operates; two typed
/// values operate directly. Every successful result is owned.
pub open spec fn spec_arith(op: ArithOp, a: EvModel, b: EvModel) -> Result<
    EvModel,
    EvaluateError,
> {
    match (lit_of(a), val_of(a), lit_of(b), val_of(b)) {
        (Some(l), _, Some(r), _) => match lit_arith(op, l, r) {
            Ok(x) => Ok(EvModel::LitOwn(x)),
            Err(e) => Err(e),
        },
        (Some(l), _, _, Some(v)) => match val_coerce(v, l) {
            Ok(w) => match val_arith(op, w, v) {
                Ok(x) => Ok(EvModel::ValOwn(x)),
                Err(e) => Err(e),
            },
            Err(e) => Err(e),
        },
        (_, Some(v), Some(l), _) => match val_coerce(v, l) {
            Ok(w) => match val_arith(op, v, w) {
                Ok(x) => Ok(EvModel::ValOwn(x)),
                Err(e) => Err(e),
            },
            Err(e) => Err(e),
        },
        (_, Some(v), _, Some(w)) => match val_arith(op, v, w) {
            Ok(x) => Ok(EvModel::ValOwn(x)),
            Err(e) => Err(e),
        },
        _ => Err(EvaluateError::UnreachableEvaluatedArithmetic),
    }
}

impl<'a> Evaluated<'a> {
    /// Equality of two evaluated results, over the matrix that
    /// [`spec_equals`] lays out. The caller owes [`eq_reachable`]: an
    /// owned literal meets nothing but a borrowed typed value.
    pub fn equals(&self, other: &Evaluated<'a>) -> (r: bool)
        requires
            eq_reachable(self@, other@),
        ensures
            r == spec_equals(self@, other@),
    {
        match (self, other) {
            (Evaluated::LiteralRef(l), Evaluated::LiteralRef(r)) => l.eq_literal(r),
            (Evaluated::LiteralRef(l), Evaluated::StringRef(s)) => l.eq_text(s),
            (Evaluated::LiteralRef(l), Evaluated::ValueRef(v)) => v.eq_literal(l),
            (Evaluated::LiteralRef(l), Evaluated::Value(v)) => v.eq_literal(l),
            (Evaluated::Literal(l), Evaluated::ValueRef(v)) => v.eq_literal(l),
            (Evaluated::StringRef(s), Evaluated::LiteralRef(l)) => l.eq_text(s),
            (Evaluated::StringRef(x), Evaluated::StringRef(y)) => str_eq(x, y),
            (Evaluated::StringRef(s), Evaluated::ValueRef(v)) => v.eq_text(s),
            (Evaluated::StringRef(s), Evaluated::Value(v)) => v.eq_text(s),
            (Evaluated::ValueRef(v), Evaluated::LiteralRef(l)) => v.eq_literal(l),
            (Evaluated::ValueRef(v), Evaluated::Literal(l)) => v.eq_literal(l),
            (Evaluated::ValueRef(v), Evaluated::StringRef(s)) => v.eq_text(s),
            (Evaluated::ValueRef(v), Evaluated::ValueRef(w)) => v.eq_value(w),
            (Evaluated::ValueRef(v), Evaluated::Value(w)) => v.eq_value(w),
            (Evaluated::Value(v), Evaluated::LiteralRef(l)) => v.eq_literal(l),
            (Evaluated::Value(v), Evaluated::StringRef(s)) => v.eq_text(s),
            (Evaluated::Value(v), Evaluated::ValueRef(w)) => v.eq_value(w),
            (Evaluated::Value(v), Evaluated::Value(w)) => v.eq_value(w),
            _ => {
                proof {
                    assert(false);
                }
                false
            },
        }
    }

    /// Three-way comparison of two evaluated results, absent where
    /// [`spec_compare`] declares the pairing incomparable. The mirrored
    /// direction is obtained by reversing the delegated answer, never
    /// by recomputing it.
    pub fn compare(&self, other: &Evaluated<'a>) -> (r: Option<Ordering>)
        ensures
            r == spec_compare(self@, other@),
    {
        match (self, other) {
            (Evaluated::StringRef(x), Evaluated::StringRef(y)) => Some(str_cmp(x, y)),
            (Evaluated::StringRef(s), Evaluated::ValueRef(v)) => text_cmp_value(s, v),
            (Evaluated::StringRef(s), Evaluated::Value(v)) => text_cmp_value(s, v),
            (Evaluated::StringRef(_), _) => None,
            (Evaluated::ValueRef(v), Evaluated::StringRef(s)) => v.cmp_text(s),
            (Evaluated::Value(v), Evaluated::StringRef(s)) => v.cmp_text(s),
            (Evaluated::LiteralRef(_), Evaluated::StringRef(_)) => None,
            (Evaluated::Literal(_), Evaluated::StringRef(_)) => None,
            (Evaluated::LiteralRef(l), Evaluated::LiteralRef(r)) => literal_partial_cmp(l, r),
            (Evaluated::LiteralRef(l), Evaluated::Literal(r)) => literal_partial_cmp(l, r),
            (Evaluated::Literal(l), Evaluated::LiteralRef(r)) => literal_partial_cmp(l, r),
            (Evaluated::Literal(l), Evaluated::Literal(r)) => literal_partial_cmp(l, r),
            (Evaluated::LiteralRef(l), Evaluated::ValueRef(v)) => Self::mirror(v.cmp_literal(l)),
            (Evaluated::LiteralRef(l), Evaluated::Value(v)) => Self::mirror(v.cmp_literal(l)),
            (Evaluated::Literal(l), Evaluated::ValueRef(v)) => Self::mirror(v.cmp_literal(l)),
            (Evaluated::Literal(l), Evaluated::Value(v)) => Self::mirror(v.cmp_literal(l)),
            (Evaluated::ValueRef(v), Evaluated::LiteralRef(l)) => v.cmp_literal(l),
            (Evaluated::ValueRef(v), Evaluated::Literal(l)) => v.cmp_literal(l),
            (Evaluated::Value(v), Evaluated::LiteralRef(l)) => v.cmp_literal(l),
            (Evaluated::Value(v), Evaluated::Literal(l)) => v.cmp_literal(l),
            (Evaluated::ValueRef(v), Evaluated::ValueRef(w)) => v.cmp_value(w),
            (Evaluated::ValueRef(v), Evaluated::Value(w)) => v.cmp_value(w),
            (Evaluated::Value(v), Evaluated::ValueRef(w)) => v.cmp_value(w),
            (Evaluated::Value(v), Evaluated::Value(w)) => v.cmp_value(w),
        }
    }

    /// Reverse a delegated comparison answer.
    fn mirror(o: Option<Ordering>) -> (r: Option<Ordering>)
        ensures
            r == flip_opt(o),
    {
        match o {
            Some(x) => Some(reverse_ordering(x)),
            None => None,
        }
    }

    /// Apply one operator, dispatching as [`spec_arith`] prescribes.
    pub fn arith(&self, op: ArithOp, other: &Evaluated<'a>) -> (r: Result<
        Evaluated<'a>,
        EvaluateError,
    >)
        ensures
            ev_result_model(r) == spec_arith(op, self@, other@),
    {
        match self {
            Evaluated::LiteralRef(l) => Self::arith_literal(op, l, other),
            Evaluated::Literal(l) => Self::arith_literal(op, l, other),
            Evaluated::StringRef(_) => Err(EvaluateError::UnreachableEvaluatedArithmetic),
            Evaluated::ValueRef(v) => Self::arith_value(op, v, other),
            Evaluated::Value(v) => Self::arith_value(op, v, other),
        }
    }

    /// Arithmetic with a literal-like left operand.
    fn arith_literal(op: ArithOp, l: &Literal, other: &Evaluated<'a>) -> (r: Result<
        Evaluated<'a>,
        EvaluateError,
    >)
        ensures
            ev_result_model(r) == spec_arith(op, EvModel::LitRef(l@), other@),
    {
        match other {
            Evaluated::LiteralRef(rhs) => match literal_arith(op, l, rhs) {
                Ok(x) => Ok(Evaluated::Literal(x)),
                Err(e) => Err(e),
            },
            Evaluated::Literal(rhs) => match literal_arith(op, l, rhs) {
                Ok(x) => Ok(Evaluated::Literal(x)),
                Err(e) => Err(e),
            },
            Evaluated::StringRef(_) => Err(EvaluateError::UnreachableEvaluatedArithmetic),
            Evaluated::ValueRef(v) => Self::coerced_arith(op, l, v),
            Evaluated::Value(v) => Self::coerced_arith(op, l, v),
        }
    }

    /// Coerce the literal into the typed peer's type, then let the
    /// typed domain operate with the coerced value on the left.
    fn coerced_arith(op: ArithOp, l: &Literal, v: &TypedValue) -> (r: Result<
        Evaluated<'a>,
        EvaluateError,
    >)
        ensures
            ev_result_model(r) == spec_arith(op, EvModel::LitRef(l@), EvModel::ValRef(v@)),
    {
        match v.coerce_literal(l) {
            Ok(w) => match w.arith(op, v) {
                Ok(x) => Ok(Evaluated::Value(x)),
                Err(e) => Err(e),
            },
            Err(e) => Err(e),
        }
    }

    /// Arithmetic with a typed left operand.
    fn arith_value(op: ArithOp, v: &TypedValue, other: &Evaluated<'a>) -> (r: Result<
        Evaluated<'a>,
        EvaluateError,
    >)
        ensures
            ev_result_model(r) == spec_arith(op, EvModel::ValRef(v@), other@),
    {
        match other {
            Evaluated::LiteralRef(l) => match v.coerce_literal(l) {
                Ok(w) => match v.arith(op, &w) {
                    Ok(x) => Ok(Evaluated::Value(x)),
                    Err(e) => Err(e),
                },
                Err(e) => Err(e),
            },
            Evaluated::Literal(l) => match v.coerce_literal(l) {
                Ok(w) => match v.arith(op, &w) {
                    Ok(x) => Ok(Evaluated::Value(x)),
                    Err(e) => Err(e),
                },
                Err(e) => Err(e),
            },
            Evaluated::StringRef(_) => Err(EvaluateError::UnreachableEvaluatedArithmetic),
            Evaluated::ValueRef(w) => match v.arith(op, w) {
                Ok(x) => Ok(Evaluated::Value(x)),
                Err(e) => Err(e),
            },
            Evaluated::Value(w) => match v.arith(op, w) {
                Ok(x) => Ok(Evaluated::Value(x)),
                Err(e) => Err(e),
            },
        }
    }

    /// Add two evaluated results.
    pub fn add(&self, other: &Evaluated<'a>) -> (r: Result<Evaluated<'a>, EvaluateError>)
        ensures
            ev_result_model(r) == spec_arith(ArithOp::Add, self@, other@),
    {
        self.arith(ArithOp::Add, other)
    }

    /// Subtract an evaluated result from another.
    pub fn subtract(&self, other: &Evaluated<'a>) -> (r: Result<Evaluated<'a>, EvaluateError>)
        ensures
            ev_result_model(r) == spec_arith(ArithOp::Subtract, self@, other@),
    {
        self.arith(ArithOp::Subtract, other)
    }

    /// Multiply two evaluated results.
    pub fn multiply(&self, other: &Evaluated<'a>) -> (r: Result<Evaluated<'a>, EvaluateError>)
        ensures
            ev_result_model(r) == spec_arith(ArithOp::Multiply, self@, other@),
    {
        self.arith(ArithOp::Multiply, other)
    }

    /// Divide an evaluated result by another, truncating toward zero.
    pub fn divide(&self, other: &Evaluated<'a>) -> (r: Result<Evaluated<'a>, EvaluateError>)
        ensures
            ev_result_model(r) == spec_arith(ArithOp::Divide, self@, other@),
    {
        self.arith(ArithOp::Divide, other)
    }
}

/// The image of an arithmetic result.
pub open spec fn ev_result_model<'a>(r: Result<Evaluated<'a>, EvaluateError>) -> Result<
    EvModel,
    EvaluateError,
> {
    match r {
        Ok(e) => Ok(e@),
        Err(e) => Err(e),
    }
}

} // verus!
