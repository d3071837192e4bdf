use expreval::eval::{eval, type_checked_var};
use expreval::ops::{type_checked_add, type_checked_div, type_checked_mul, type_checked_sub};
use expreval::value::{Exp, Val};

fn ival(x: u64) -> Box<Exp> {
    Box::new(Exp::Var(Val::Int(x)))
}

fn fval(x: f64) -> Box<Exp> {
    Box::new(Exp::Var(Val::Rat(x.to_bits())))
}

fn rat(x: f64) -> Val {
    Val::Rat(x.to_bits())
}

#[test]
fn test_eval() {
    let exp1 = eval(Exp::Add(ival(10), fval(20.0)));
    let exp2 = eval(Exp::Sub(ival(10), fval(20.0)));
    let exp3 = eval(Exp::Mul(ival(10), fval(20.0)));
    let exp4 = eval(Exp::Div(ival(10), fval(20.0)));

    assert_eq!(exp1.unwrap(), rat(30.0));
    assert_eq!(exp2.unwrap(), rat(-10.0));
    assert_eq!(exp3.unwrap(), rat(200.0));
    assert_eq!(exp4.unwrap(), rat(0.5));
}

#[test]
fn int_int_exact_arithmetic() {
    assert_eq!(eval(Exp::Add(ival(2), ival(3))), Some(Val::Int(5)));
    assert_eq!(eval(Exp::Sub(ival(10), ival(4))), Some(Val::Int(6)));
    assert_eq!(eval(Exp::Mul(ival(6), ival(7))), Some(Val::Int(42)));
    assert_eq!(eval(Exp::Div(ival(7), ival(2))), Some(Val::Int(3)));
}

#[test]
fn int_overflow_wraps() {
    assert_eq!(eval(Exp::Add(ival(u64::MAX), ival(1))), Some(Val::Int(0)));
    assert_eq!(eval(Exp::Sub(ival(0), ival(1))), Some(Val::Int(u64::MAX)));
    assert_eq!(eval(Exp::Mul(ival(1 << 63), ival(2))), Some(Val::Int(0)));
}

#[test]
fn int_division_by_zero_is_failure() {
    // Integer division by zero is a recoverable failure, not a trap.
    assert_eq!(eval(Exp::Div(ival(1), ival(0))), None);
}

#[test]
fn rational_rational_arithmetic() {
    assert_eq!(eval(Exp::Add(fval(1.5), fval(2.25))), Some(rat(3.75)));
    assert_eq!(eval(Exp::Sub(fval(1.5), fval(2.25))), Some(rat(-0.75)));
    assert_eq!(eval(Exp::Mul(fval(2.5), fval(4.0))), Some(rat(10.0)));
    assert_eq!(eval(Exp::Div(fval(1.0), fval(8.0))), Some(rat(0.125)));
}

#[test]
fn rational_int_widening() {
    assert_eq!(eval(Exp::Add(fval(0.5), ival(2))), Some(rat(2.5)));
    assert_eq!(eval(Exp::Sub(fval(5.0), ival(2))), Some(rat(3.0)));
    assert_eq!(eval(Exp::Mul(fval(1.5), ival(4))), Some(rat(6.0)));
    assert_eq!(eval(Exp::Div(fval(1.0), ival(4))), Some(rat(0.25)));
}

#[test]
fn rational_division_by_zero_is_infinite() {
    assert_eq!(eval(Exp::Div(fval(1.0), fval(0.0))), Some(rat(f64::INFINITY)));
    assert_eq!(eval(Exp::Div(ival(1), fval(0.0))), Some(rat(f64::INFINITY)));
}

#[test]
fn boolean_operand_fails() {
    let b = || Box::new(Exp::Var(Val::Boo(true)));
    assert_eq!(eval(Exp::Add(b(), ival(1))), None);
    assert_eq!(eval(Exp::Sub(ival(1), b())), None);
    assert_eq!(eval(Exp::Mul(b(), fval(2.0))), None);
    assert_eq!(eval(Exp::Div(fval(2.0), b())), None);
}

#[test]
fn absent_operand_fails() {
    let n = || Box::new(Exp::Var(Val::Nil));
    assert_eq!(eval(Exp::Add(n(), ival(1))), None);
    assert_eq!(eval(Exp::Sub(ival(1), n())), None);
    assert_eq!(eval(Exp::Mul(n(), fval(2.0))), None);
    assert_eq!(eval(Exp::Div(fval(2.0), n())), None);
}

#[test]
fn text_operand_fails() {
    let t = || Box::new(Exp::Var(Val::Txt(String::from("two"))));
    assert_eq!(eval(Exp::Add(t(), ival(1))), None);
    assert_eq!(eval(Exp::Sub(ival(1), t())), None);
    assert_eq!(eval(Exp::Mul(t(), fval(2.0))), None);
    assert_eq!(eval(Exp::Div(fval(2.0), t())), None);
}

#[test]
fn left_failure_short_circuits() {
    // The failing left child decides the result; the right subtree, itself
    // bound to fail, is never reached.
    let bad_left = Box::new(Exp::Add(
        Box::new(Exp::Var(Val::Boo(true))),
        Box::new(Exp::Var(Val::Int(1))),
    ));
    let bad_right = Box::new(Exp::Div(
        Box::new(Exp::Var(Val::Int(1))),
        Box::new(Exp::Var(Val::Int(0))),
    ));
    assert_eq!(eval(Exp::Mul(bad_left, bad_right)), None);
}

#[test]
fn right_failure_propagates() {
    let bad_right = Box::new(Exp::Var(Val::Nil));
    assert_eq!(eval(Exp::Add(ival(1), bad_right)), None);
}

#[test]
fn literal_evaluation_is_idempotent() {
    let make = || Exp::Add(ival(10), fval(20.0));
    let first = eval(make());
    let second = eval(make());
    assert_eq!(first, second);
    assert_eq!(first, Some(rat(30.0)));

    let tree = Exp::Mul(ival(3), ival(4));
    let cloned = tree.clone();
    assert_eq!(eval(tree), eval(cloned));
}

#[test]
fn nested_expressions() {
    // (2 + 3) * (10 - 4) = 30, all integers, exactly.
    let sum = Box::new(Exp::Add(ival(2), ival(3)));
    let diff = Box::new(Exp::Sub(ival(10), ival(4)));
    assert_eq!(eval(Exp::Mul(sum, diff)), Some(Val::Int(30)));

    // (1 + 0.5) / 2 = 0.75, rational throughout.
    let mixed = Box::new(Exp::Add(ival(1), fval(0.5)));
    assert_eq!(eval(Exp::Div(mixed, ival(2))), Some(rat(0.75)));
}

#[test]
fn operator_rules_directly() {
    assert_eq!(type_checked_var(Val::Boo(false)), Some(Val::Boo(false)));
    assert_eq!(type_checked_var(Val::Nil), Some(Val::Nil));
    assert_eq!(type_checked_add(Val::Int(1), rat(2.0)), Some(rat(3.0)));
    assert_eq!(type_checked_sub(rat(2.0), Val::Int(1)), Some(rat(1.0)));
    assert_eq!(type_checked_mul(rat(3.0), rat(0.5)), Some(rat(1.5)));
    assert_eq!(type_checked_div(Val::Int(9), Val::Int(3)), Some(Val::Int(3)));
    assert_eq!(type_checked_add(Val::Nil, Val::Nil), None);
    assert_eq!(type_checked_div(Val::Int(3), Val::Boo(true)), None);
}
