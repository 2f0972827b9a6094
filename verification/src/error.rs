//! Error taxonomy of the value algebra.

use vstd::prelude::*;

verus! {

/// Everything that a comparison-free operation of the algebra can report.
///
/// Two tiers live here. `UnreachableEvaluatedArithmetic` is an
/// invariant violation: the evaluator routed a bare string slice into
/// arithmetic, a pairing its own contract rules out. Every other variant
/// is an ordinary, recoverable evaluation error: the expression itself is
/// malformed or semantically invalid.
#[derive(Clone, Copy, Debug, PartialEq, Eq, Structural)]
pub enum EvaluateError {
    /// A bare string operand reached arithmetic; the engine never
    /// constructs such a call, so hitting this marks a broken invariant.
    UnreachableEvaluatedArithmetic,
    /// Literal arithmetic was asked for on a pairing that is not two
    /// integer numeric-text literals.
    UnreachableLiteralArithmetic,
    /// The divisor evaluated to zero.
    DivisionByZero,
    /// The exact result does not exist in 64-bit signed range; the
    /// algebra reports overflow rather than wrapping or saturating.
    NumericOverflow,
    /// The typed domain refuses the operand types (a text value, or two
    /// values of different types, in arithmetic).
    NonNumericArithmetic,
    /// A literal could not be coerced into the peer value's type.
    LiteralCoercionFailed,
}

} // verus!
