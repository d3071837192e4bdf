//! The per-operator type-coercion rules.
//!
//! Each operator combines two already-evaluated values under the same rule
//! shape: two integers combine by unsigned 64-bit integer arithmetic; an
//! integer beside a rational is widened to a rational first; two rationals
//! combine directly; any other pairing is a type mismatch and yields no
//! result.
//!
//! Two conditions fall outside the type-mismatch taxonomy and are resolved
//! here by explicit policy: integer overflow wraps around modulo 2^64
//! (the operators use the wrapping operations), and integer division by
//! zero is treated as a recoverable failure (no result) rather than a trap.

use vstd::prelude::*;

use crate::rat::{rat_add, rat_add_bits, rat_div, rat_div_bits, rat_from_int, rat_mul,
    rat_mul_bits, rat_of_int, rat_sub, rat_sub_bits};
use crate::value::{combinable, Val};

verus! {

/// What `type_checked_add` returns.
pub open spec fn add_vals(val1: Val, val2: Val) -> Option<Val> {
    match (val1, val2) {
        (Val::Int(a), Val::Int(b)) => Some(Val::Int(a.wrapping_add(b))),
        (Val::Int(a), Val::Rat(b)) => Some(Val::Rat(rat_add_bits(rat_of_int(a), b))),
        (Val::Rat(a), Val::Int(b)) => Some(Val::Rat(rat_add_bits(a, rat_of_int(b)))),
        (Val::Rat(a), Val::Rat(b)) => Some(Val::Rat(rat_add_bits(a, b))),
        _ => None,
    }
}

/// What `type_checked_sub` returns.
pub open spec fn sub_vals(val1: Val, val2: Val) -> Option<Val> {
    match (val1, val2) {
        (Val::Int(a), Val::Int(b)) => Some(Val::Int(a.wrapping_sub(b))),
        (Val::Int(a), Val::Rat(b)) => Some(Val::Rat(rat_sub_bits(rat_of_int(a), b))),
        (Val::Rat(a), Val::Int(b)) => Some(Val::Rat(rat_sub_bits(a, rat_of_int(b)))),
        (Val::Rat(a), Val::Rat(b)) => Some(Val::Rat(rat_sub_bits(a, b))),
        _ => None,
    }
}

/// What `type_checked_mul` returns.
pub open spec fn mul_vals(val1: Val, val2: Val) -> Option<Val> {
    match (val1, val2) {
        (Val::Int(a), Val::Int(b)) => Some(Val::Int(a.wrapping_mul(b))),
        (Val::Int(a), Val::Rat(b)) => Some(Val::Rat(rat_mul_bits(rat_of_int(a), b))),
        (Val::Rat(a), Val::Int(b)) => Some(Val::Rat(rat_mul_bits(a, rat_of_int(b)))),
        (Val::Rat(a), Val::Rat(b)) => Some(Val::Rat(rat_mul_bits(a, b))),
        _ => None,
    }
}

/// What `type_checked_div` returns. Integer division by zero yields no
/// result; rational division by zero follows IEEE-754.
pub open spec fn div_vals(val1: Val, val2: Val) -> Option<Val> {
    match (val1, val2) {
        (Val::Int(a), Val::Int(b)) => if b == 0 {
            None
        } else {
            Some(Val::Int((a / b) as u64))
        },
        (Val::Int(a), Val::Rat(b)) => Some(Val::Rat(rat_div_bits(rat_of_int(a), b))),
        (Val::Rat(a), Val::Int(b)) => Some(Val::Rat(rat_div_bits(a, rat_of_int(b)))),
        (Val::Rat(a), Val::Rat(b)) => Some(Val::Rat(rat_div_bits(a, b))),
        _ => None,
    }
}

/// The bits of the rational that a combinable operand contributes: a
/// rational's own bits, or the widened form of an integer.
pub open spec fn widened(v: Val) -> u64
    recommends
        combinable(v),
{
    match v {
        Val::Int(i) => rat_of_int(i),
        Val::Rat(bits) => bits,
        _ => 0,
    }
}

/// Type-checked `Add` rule: integer addition wraps modulo 2^64.
pub fn type_checked_add(val1: Val, val2: Val) -> (res: Option<Val>)
    ensures
        res == add_vals(val1, val2),
{
    match (val1, val2) {
        (Val::Int(a), Val::Int(b)) => Some(Val::Int(a.wrapping_add(b))),
        (Val::Int(a), Val::Rat(b)) => Some(Val::Rat(rat_add(rat_from_int(a), b))),
        (Val::Rat(a), Val::Int(b)) => Some(Val::Rat(rat_add(a, rat_from_int(b)))),
        (Val::Rat(a), Val::Rat(b)) => Some(Val::Rat(rat_add(a, b))),
        _ => None,
    }
}

/// Type-checked `Sub` rule: integer subtraction wraps modulo 2^64.
pub fn type_checked_sub(val1: Val, val2: Val) -> (res: Option<Val>)
    ensures
        res == sub_vals(val1, val2),
{
    match (val1, val2) {
        (Val::Int(a), Val::Int(b)) => Some(Val::Int(a.wrapping_sub(b))),
        (Val::Int(a), Val::Rat(b)) => Some(Val::Rat(rat_sub(rat_from_int(a), b))),
        (Val::Rat(a), Val::Int(b)) => Some(Val::Rat(rat_sub(a, rat_from_int(b)))),
        (Val::Rat(a), Val::Rat(b)) => Some(Val::Rat(rat_sub(a, b))),
        _ => None,
    }
}

/// Type-checked `Mul` rule: integer multiplication wraps modulo 2^64.
pub fn type_checked_mul(val1: Val, val2: Val) -> (res: Option<Val>)
    ensures
        res == mul_vals(val1, val2),
{
    match (val1, val2) {
        (Val::Int(a), Val::Int(b)) => Some(Val::Int(a.wrapping_mul(b))),
        (Val::Int(a), Val::Rat(b)) => Some(Val::Rat(rat_mul(rat_from_int(a), b))),
        (Val::Rat(a), Val::Int(b)) => Some(Val::Rat(rat_mul(a, rat_from_int(b)))),
        (Val::Rat(a), Val::Rat(b)) => Some(Val::Rat(rat_mul(a, b))),
        _ => None,
    }
}

/// Type-checked `Div` rule: integer division by zero is a recoverable
/// failure (no result); rational division by zero follows IEEE-754 and
/// yields an infinity or NaN.
pub fn type_checked_div(val1: Val, val2: Val) -> (res: Option<Val>)
    ensures
        res == div_vals(val1, val2),
{
    match (val1, val2) {
        (Val::Int(a), Val::Int(b)) => if b == 0 {
            None
        } else {
            Some(Val::Int(a / b))
        },
        (Val::Int(a), Val::Rat(b)) => Some(Val::Rat(rat_div(rat_from_int(a), b))),
        (Val::Rat(a), Val::Int(b)) => Some(Val::Rat(rat_div(a, rat_from_int(b)))),
        (Val::Rat(a), Val::Rat(b)) => Some(Val::Rat(rat_div(a, b))),
        _ => None,
    }
}

/// Two integer operands always combine to an integer, by exact unsigned
/// integer arithmetic wherever the exact result is representable: whenever
/// the true sum, difference or product fits in 64 bits it is returned
/// unchanged, and whenever the divisor is nonzero the exact truncated
/// quotient is returned. (Outside those bounds addition, subtraction and
/// multiplication wrap modulo 2^64, and division by zero yields no result.)
pub proof fn lemma_int_int_exact(a: u64, b: u64)
    ensures
        add_vals(Val::Int(a), Val::Int(b)) == Some(Val::Int(a.wrapping_add(b))),
        sub_vals(Val::Int(a), Val::Int(b)) == Some(Val::Int(a.wrapping_sub(b))),
        mul_vals(Val::Int(a), Val::Int(b)) == Some(Val::Int(a.wrapping_mul(b))),
        a + b <= u64::MAX ==> add_vals(Val::Int(a), Val::Int(b)) == Some(
            Val::Int((a + b) as u64),
        ),
        b <= a ==> sub_vals(Val::Int(a), Val::Int(b)) == Some(Val::Int((a - b) as u64)),
        a * b <= u64::MAX ==> mul_vals(Val::Int(a), Val::Int(b)) == Some(
            Val::Int((a * b) as u64),
        ),
        b != 0 ==> div_vals(Val::Int(a), Val::Int(b)) == Some(Val::Int((a / b) as u64)),
{
}

/// A pair of combinable operands with at least one rational combines, under
/// every operator, to the rational obtained by applying that operator's
/// double-precision arithmetic to the (possibly widened) operands.
pub proof fn lemma_rational_widening(v1: Val, v2: Val)
    requires
        combinable(v1),
        combinable(v2),
        v1 is Rat || v2 is Rat,
    ensures
        add_vals(v1, v2) == Some(Val::Rat(rat_add_bits(widened(v1), widened(v2)))),
        sub_vals(v1, v2) == Some(Val::Rat(rat_sub_bits(widened(v1), widened(v2)))),
        mul_vals(v1, v2) == Some(Val::Rat(rat_mul_bits(widened(v1), widened(v2)))),
        div_vals(v1, v2) == Some(Val::Rat(rat_div_bits(widened(v1), widened(v2)))),
{
}

/// A boolean, absent or text operand, in either position, makes every one of
/// the four operators fail.
pub proof fn lemma_mismatch_fails(v1: Val, v2: Val)
    requires
        !combinable(v1) || !combinable(v2),
    ensures
        add_vals(v1, v2) is None,
        sub_vals(v1, v2) is None,
        mul_vals(v1, v2) is None,
        div_vals(v1, v2) is None,
{
}

} // verus!
