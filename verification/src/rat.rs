//! Double-precision rational arithmetic on IEEE-754 bit patterns.
//!
//! A rational value is carried as the 64 bits of an IEEE-754 double. The
//! arithmetic itself is delegated to `rustc_apfloat`, a software
//! implementation of IEEE-754 whose results depend on the operand bits alone;
//! each operation's result is therefore given a name that the contracts of
//! the operator rules and the evaluator can speak of exactly.

use vstd::prelude::*;
use rustc_apfloat::Float;

verus! {

/// The bits of the IEEE-754 double sum of the doubles with bits `a` and `b`.
pub uninterp spec fn rat_add_bits(a: u64, b: u64) -> u64;

/// The bits of the IEEE-754 double difference of the doubles with bits `a`
/// and `b`.
pub uninterp spec fn rat_sub_bits(a: u64, b: u64) -> u64;

/// The bits of the IEEE-754 double product of the doubles with bits `a` and
/// `b`.
pub uninterp spec fn rat_mul_bits(a: u64, b: u64) -> u64;

/// The bits of the IEEE-754 double quotient of the doubles with bits `a` and
/// `b`. Division by zero follows IEEE-754: it yields an infinity or NaN, not
/// a failure.
pub uninterp spec fn rat_div_bits(a: u64, b: u64) -> u64;

/// The bits of the IEEE-754 double nearest to the unsigned integer `i`: the
/// widened form of an integer operand.
pub uninterp spec fn rat_of_int(i: u64) -> u64;

/// Relies on `rustc_apfloat::ieee::Double`: `from_bits`, addition rounding
/// to nearest-even, and `to_bits`. The result depends on the operand bits
/// alone.
#[verifier::external_body]
pub(crate) fn rat_add(a: u64, b: u64) -> (r: u64)
    ensures
        r == rat_add_bits(a, b),
{
    let x = rustc_apfloat::ieee::Double::from_bits(a as u128);
    let y = rustc_apfloat::ieee::Double::from_bits(b as u128);
    (x + y).value.to_bits() as u64
}

/// Relies on `rustc_apfloat::ieee::Double`: `from_bits`, subtraction
/// rounding to nearest-even, and `to_bits`. The result depends on the
/// operand bits alone.
#[verifier::external_body]
pub(crate) fn rat_sub(a: u64, b: u64) -> (r: u64)
    ensures
        r == rat_sub_bits(a, b),
{
    let x = rustc_apfloat::ieee::Double::from_bits(a as u128);
    let y = rustc_apfloat::ieee::Double::from_bits(b as u128);
    (x - y).value.to_bits() as u64
}

/// Relies on `rustc_apfloat::ieee::Double`: `from_bits`, multiplication
/// rounding to nearest-even, and `to_bits`. The result depends on the
/// operand bits alone.
#[verifier::external_body]
pub(crate) fn rat_mul(a: u64, b: u64) -> (r: u64)
    ensures
        r == rat_mul_bits(a, b),
{
    let x = rustc_apfloat::ieee::Double::from_bits(a as u128);
    let y = rustc_apfloat::ieee::Double::from_bits(b as u128);
    (x * y).value.to_bits() as u64
}

/// Relies on `rustc_apfloat::ieee::Double`: `from_bits`, division rounding
/// to nearest-even (division by zero gives an infinity or NaN under
/// IEEE-754), and `to_bits`. The result depends on the operand bits alone.
#[verifier::external_body]
pub(crate) fn rat_div(a: u64, b: u64) -> (r: u64)
    ensures
        r == rat_div_bits(a, b),
{
    let x = rustc_apfloat::ieee::Double::from_bits(a as u128);
    let y = rustc_apfloat::ieee::Double::from_bits(b as u128);
    (x / y).value.to_bits() as u64
}

/// Relies on `rustc_apfloat::ieee::Double::from_u128` (rounding to
/// nearest-even) and `to_bits`. The result depends on the integer alone.
#[verifier::external_body]
pub(crate) fn rat_from_int(i: u64) -> (r: u64)
    ensures
        r == rat_of_int(i),
{
    rustc_apfloat::ieee::Double::from_u128(i as u128).value.to_bits() as u64
}

} // verus!
