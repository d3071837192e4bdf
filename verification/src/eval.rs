//! The evaluator: a pure recursive walk of the expression tree.
//!
//! A literal evaluates to its value. A binary node evaluates its left child
//! first; if that fails, the failure propagates at once and the right child
//! is never evaluated. Otherwise the right child is evaluated the same way,
//! and the two values are handed to the operator's type-coercion rule.

use vstd::prelude::*;

use crate::ops::{add_vals, div_vals, mul_vals, sub_vals, type_checked_add, type_checked_div,
    type_checked_mul, type_checked_sub};
use crate::value::{Exp, Val};

verus! {

/// What `eval` returns: the value of the expression, or `None` on the first
/// operand whose kind an operator cannot combine (or on integer division by
/// zero). Failure of a child propagates to the whole tree.
pub open spec fn eval_spec(e: Exp) -> Option<Val>
    decreases e,
{
    match e {
        Exp::Var(var) => Some(var),
        Exp::Add(exp1, exp2) => match (eval_spec(*exp1), eval_spec(*exp2)) {
            (Some(val1), Some(val2)) => add_vals(val1, val2),
            _ => None,
        },
        Exp::Sub(exp1, exp2) => match (eval_spec(*exp1), eval_spec(*exp2)) {
            (Some(val1), Some(val2)) => sub_vals(val1, val2),
            _ => None,
        },
        Exp::Mul(exp1, exp2) => match (eval_spec(*exp1), eval_spec(*exp2)) {
            (Some(val1), Some(val2)) => mul_vals(val1, val2),
            _ => None,
        },
        Exp::Div(exp1, exp2) => match (eval_spec(*exp1), eval_spec(*exp2)) {
            (Some(val1), Some(val2)) => div_vals(val1, val2),
            _ => None,
        },
    }
}

/// Type-checked `Var` rule: a literal always evaluates to its own value,
/// under the same optional-result contract as the operator rules.
pub fn type_checked_var(var: Val) -> (res: Option<Val>)
    ensures
        res == Some(var),
{
    Some(var)
}

/// Evaluates an expression tree bottom-up. The left child of a binary node
/// is evaluated first, and on its failure the function returns before
/// touching the right child.
pub fn eval(expr: Exp) -> (res: Option<Val>)
    ensures
        res == eval_spec(expr),
    decreases expr,
{
    match expr {
        Exp::Var(var) => type_checked_var(var),
        Exp::Add(exp1, exp2) => match eval(*exp1) {
            None => None,
            Some(val1) => match eval(*exp2) {
                None => None,
                Some(val2) => type_checked_add(val1, val2),
            },
        },
        Exp::Sub(exp1, exp2) => match eval(*exp1) {
            None => None,
            Some(val1) => match eval(*exp2) {
                None => None,
                Some(val2) => type_checked_sub(val1, val2),
            },
        },
        Exp::Mul(exp1, exp2) => match eval(*exp1) {
            None => None,
            Some(val1) => match eval(*exp2) {
                None => None,
                Some(val2) => type_checked_mul(val1, val2),
            },
        },
        Exp::Div(exp1, exp2) => match eval(*exp1) {
            None => None,
            Some(val1) => match eval(*exp2) {
                None => None,
                Some(val2) => type_checked_div(val1, val2),
            },
        },
    }
}

/// Whether `e` is a binary node whose left child fails to evaluate.
pub open spec fn left_child_fails(e: Exp) -> bool {
    match e {
        Exp::Var(_) => false,
        Exp::Add(exp1, _) => eval_spec(*exp1) is None,
        Exp::Sub(exp1, _) => eval_spec(*exp1) is None,
        Exp::Mul(exp1, _) => eval_spec(*exp1) is None,
        Exp::Div(exp1, _) => eval_spec(*exp1) is None,
    }
}

/// Whether `e` is a binary node whose right child fails to evaluate.
pub open spec fn right_child_fails(e: Exp) -> bool {
    match e {
        Exp::Var(_) => false,
        Exp::Add(_, exp2) => eval_spec(*exp2) is None,
        Exp::Sub(_, exp2) => eval_spec(*exp2) is None,
        Exp::Mul(_, exp2) => eval_spec(*exp2) is None,
        Exp::Div(_, exp2) => eval_spec(*exp2) is None,
    }
}

/// A failing child makes the whole node fail, whatever the other child
/// holds. In particular, when the left child fails the node's result is
/// `None` regardless of the right subtree — which `eval` indeed never
/// touches in that case, returning as soon as the left child comes back
/// empty.
pub proof fn lemma_failure_propagates(e: Exp)
    ensures
        left_child_fails(e) ==> eval_spec(e) is None,
        right_child_fails(e) ==> eval_spec(e) is None,
{
}

/// Evaluation is a pure function of the expression tree: evaluating equal
/// trees — in particular, the same literal-only expression twice — yields
/// identical results, there being no hidden state.
pub proof fn lemma_eval_deterministic(e1: Exp, e2: Exp)
    requires
        e1 == e2,
    ensures
        eval_spec(e1) == eval_spec(e2),
{
}

} // verus!
