//! The value model: a closed, tagged union of runtime values, and the
//! expression tree built over it.

use vstd::prelude::*;

verus! {

/// A runtime value of one of five kinds.
///
/// A rational is a 64-bit IEEE-754 double, represented here by its bit
/// pattern, so that the type-coercion rules and the evaluator can be stated
/// and checked exactly; the double-precision arithmetic itself is carried out
/// on the bit patterns (see `rat`).
#[derive(Debug, PartialEq)]
pub enum Val {
    Boo(bool),
    Int(u64),
    Nil,
    Rat(u64),
    Txt(String),
}

/// An expression: a literal value, or one of four binary operators, each
/// owning its two children. The tree is finite and never shared, so
/// evaluation always terminates.
#[derive(Debug)]
pub enum Exp {
    Var(Val),
    Add(Box<Exp>, Box<Exp>),
    Sub(Box<Exp>, Box<Exp>),
    Mul(Box<Exp>, Box<Exp>),
    Div(Box<Exp>, Box<Exp>),
}

impl Clone for Val {
    /// A clone is equal to the original, so a cloned expression evaluates to
    /// the same result.
    fn clone(&self) -> (res: Self)
        ensures
            res == *self,
    {
        match self {
            Val::Boo(b) => Val::Boo(*b),
            Val::Int(i) => Val::Int(*i),
            Val::Nil => Val::Nil,
            Val::Rat(bits) => Val::Rat(*bits),
            Val::Txt(s) => Val::Txt(s.clone()),
        }
    }
}

impl Clone for Exp {
    /// A clone is equal to the original, so a cloned expression evaluates to
    /// the same result.
    fn clone(&self) -> (res: Self)
        ensures
            res == *self,
        decreases *self,
    {
        match self {
            Exp::Var(v) => Exp::Var(v.clone()),
            Exp::Add(l, r) => Exp::Add(Box::new((**l).clone()), Box::new((**r).clone())),
            Exp::Sub(l, r) => Exp::Sub(Box::new((**l).clone()), Box::new((**r).clone())),
            Exp::Mul(l, r) => Exp::Mul(Box::new((**l).clone()), Box::new((**r).clone())),
            Exp::Div(l, r) => Exp::Div(Box::new((**l).clone()), Box::new((**r).clone())),
        }
    }
}

/// Only integers and rationals can be combined by the arithmetic operators;
/// booleans, absent values and text cannot.
pub open spec fn combinable(v: Val) -> bool {
    v is Int || v is Rat
}

} // verus!
