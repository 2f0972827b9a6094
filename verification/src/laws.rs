//! The laws of the algebra, proved once over the specification
//! functions the executable contracts are stated in.

use vstd::prelude::*;

use crate::compare::{flip_opt, int_cmp, lemma_lex_cmp_flip};
use crate::error::EvaluateError;
use crate::evaluated::{
    eq_reachable, lit_of, spec_arith, spec_compare, spec_equals, val_of, EvModel,
};
use crate::literal::{lit_cmp, LitModel};
use crate::numeric::{parse_i64, ArithOp};
use crate::value::{val_cmp, val_coerce, val_lit_cmp, ValModel};

verus! {

/// Mirroring twice gives the answer back.
pub proof fn lemma_flip_opt_involution(o: Option<core::cmp::Ordering>)
    ensures
        flip_opt(flip_opt(o)) == o,
{
}

/// Literal comparison mirrors when the sides swap.
pub proof fn lemma_lit_cmp_mirror(l: LitModel, r: LitModel)
    ensures
        lit_cmp(r, l) == flip_opt(lit_cmp(l, r)),
{
    match (l, r) {
        (LitModel::Text(x), LitModel::Text(y)) => lemma_lex_cmp_flip(x, y),
        _ => {},
    }
}

/// Typed comparison mirrors when the sides swap.
pub proof fn lemma_val_cmp_mirror(v: ValModel, w: ValModel)
    ensures
        val_cmp(w, v) == flip_opt(val_cmp(v, w)),
{
    match (v, w) {
        (ValModel::Txt(x), ValModel::Txt(y)) => lemma_lex_cmp_flip(x, y),
        _ => {},
    }
}

/// Equality is symmetric for every reachable pairing of
/// representations.
pub proof fn lemma_equals_symmetric(a: EvModel, b: EvModel)
    requires
        eq_reachable(a, b),
    ensures
        spec_equals(a, b) == spec_equals(b, a),
{
}

/// The partial order is antisymmetric wherever it is defined, and
/// incomparability does not depend on the order of the sides: swapping
/// them always mirrors the answer. In particular `Some(Less)` one way
/// is `Some(Greater)` the other way.
pub proof fn lemma_compare_mirror(a: EvModel, b: EvModel)
    ensures
        spec_compare(b, a) == flip_opt(spec_compare(a, b)),
{
    match (lit_of(a), val_of(a), lit_of(b), val_of(b)) {
        (Some(l), _, Some(r), _) => lemma_lit_cmp_mirror(l, r),
        (Some(l), _, _, Some(v)) => lemma_flip_opt_involution(val_lit_cmp(v, l)),
        (_, Some(v), Some(l), _) => lemma_flip_opt_involution(val_lit_cmp(v, l)),
        (_, Some(v), _, Some(w)) => lemma_val_cmp_mirror(v, w),
        _ => {},
    }
    match (a, b) {
        (EvModel::StrRef(x), EvModel::StrRef(y)) => lemma_lex_cmp_flip(x, y),
        (EvModel::StrRef(s), EvModel::ValRef(ValModel::Txt(t))) => lemma_lex_cmp_flip(s, t),
        (EvModel::StrRef(s), EvModel::ValOwn(ValModel::Txt(t))) => lemma_lex_cmp_flip(s, t),
        (EvModel::ValRef(ValModel::Txt(t)), EvModel::StrRef(s)) => lemma_lex_cmp_flip(t, s),
        (EvModel::ValOwn(ValModel::Txt(t)), EvModel::StrRef(s)) => lemma_lex_cmp_flip(t, s),
        _ => {},
    }
}

/// A numeric literal and a text-typed value are never comparable, in
/// either order.
pub proof fn lemma_numeric_literal_text_value_incomparable(a: EvModel, b: EvModel)
    requires
        lit_of(a) matches Some(l) && l is Num,
        val_of(b) matches Some(v) && v is Txt,
    ensures
        spec_compare(a, b) is None,
        spec_compare(b, a) is None,
{
}

/// The 64-bit value a numeric operand denotes: the parsed value of
/// numeric-literal text, or an integer typed value as it stands.
pub open spec fn operand_value(m: EvModel) -> Option<i64> {
    match lit_of(m) {
        Some(LitModel::Num(s)) => parse_i64(s),
        Some(_) => None,
        None => match val_of(m) {
            Some(ValModel::Int(i)) => Some(i),
            _ => None,
        },
    }
}

/// Dividing any numeric operand by a zero-valued operand — a literal
/// denoting zero or a typed zero — surfaces as the propagated
/// division-by-zero error, never as a result.
pub proof fn lemma_divide_by_zero(a: EvModel, b: EvModel)
    requires
        operand_value(a) is Some,
        operand_value(b) == Some(0i64),
    ensures
        spec_arith(ArithOp::Divide, a, b) == Err::<EvModel, EvaluateError>(
            EvaluateError::DivisionByZero,
        ),
{
}

/// Arithmetic with a bare string operand on either side always fails
/// with the invariant fault, whatever the operator and the other side.
pub proof fn lemma_string_operand_faults(op: ArithOp, a: EvModel, b: EvModel)
    requires
        a is StrRef || b is StrRef,
    ensures
        spec_arith(op, a, b) == Err::<EvModel, EvaluateError>(
            EvaluateError::UnreachableEvaluatedArithmetic,
        ),
{
}

/// Coercing a literal into a typed peer's type and then operating is
/// the same as materializing the coerced value first and operating
/// inside the typed domain — for either operand order, and whatever
/// the literal's ownership mode.
pub proof fn lemma_coerce_then_arith(op: ArithOp, l: LitModel, v: ValModel, w: ValModel)
    requires
        val_coerce(v, l) == Ok::<ValModel, EvaluateError>(w),
    ensures
        spec_arith(op, EvModel::LitRef(l), EvModel::ValRef(v)) == spec_arith(
            op,
            EvModel::ValOwn(w),
            EvModel::ValRef(v),
        ),
        spec_arith(op, EvModel::ValRef(v), EvModel::LitRef(l)) == spec_arith(
            op,
            EvModel::ValRef(v),
            EvModel::ValOwn(w),
        ),
        spec_arith(op, EvModel::LitOwn(l), EvModel::ValRef(v)) == spec_arith(
            op,
            EvModel::ValOwn(w),
            EvModel::ValRef(v),
        ),
        spec_arith(op, EvModel::ValRef(v), EvModel::LitOwn(l)) == spec_arith(
            op,
            EvModel::ValRef(v),
            EvModel::ValOwn(w),
        ),
{
}

/// Every successful arithmetic result is owned: arithmetic never
/// returns a reference into an operand.
pub proof fn lemma_arith_result_owned(op: ArithOp, a: EvModel, b: EvModel)
    ensures
        spec_arith(op, a, b) matches Ok(m) ==> (m is LitOwn || m is ValOwn),
{
}

} // verus!
