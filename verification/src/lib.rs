//! Value algebra for an expression evaluator.
//!
//! An [`evaluated::Evaluated`] is the result of reducing one expression
//! node: a literal still in its source form, a typed runtime value, or a
//! bare string slice, each either borrowed from its owner or owned
//! outright. The crate defines equality, partial ordering and the four
//! arithmetic operators over every pairing of those representations, with
//! the coercion rules that let an un-typed literal meet a typed value.

pub mod compare;
pub mod error;
pub mod evaluated;
pub mod laws;
pub mod literal;
pub mod numeric;
pub mod value;
