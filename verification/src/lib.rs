//! A minimal arithmetic expression evaluator over a small closed set of value
//! kinds: boolean, unsigned 64-bit integer, absent, rational (an IEEE-754
//! double, carried by its bit pattern), and text.
//!
//! An expression is a binary tree of literals and the four arithmetic
//! operators. Evaluation walks the tree bottom-up; each operator combines two
//! values under per-operator coercion rules, and any operand whose kind has no
//! defined combination makes the whole evaluation fail.

pub mod eval;
pub mod ops;
pub mod rat;
pub mod value;
