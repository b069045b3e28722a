use copt::{Error, LinExpr, Var};

fn plus(a: f64, b: f64) -> f64 {
    a + b
}

fn expr_of(terms: &[(f64, i32)], offset: f64) -> LinExpr<f64> {
    let mut e = LinExpr::new(0.0);
    for &(c, v) in terms {
        e = e.add_term(c, Var(v), plus);
    }
    e.add_constant(offset, plus)
}

#[test]
fn combine_cancels_shared_variable_and_keeps_zero_entry() {
    let (x, y, z) = (0, 1, 2);
    let a = expr_of(&[(2.0, x), (3.0, y)], 1.0);
    let b = expr_of(&[(-2.0, x), (5.0, z)], 0.5);
    let r = a.combine(b, plus);
    assert_eq!(r.vars(), &[Var(x), Var(y), Var(z)]);
    assert_eq!(r.coeffs(), &[0.0, 3.0, 5.0]);
    assert_eq!(r.offset(), 1.5);
}

#[test]
fn add_term_merges_same_variable() {
    let e = expr_of(&[(1.5, 4), (2.0, 7), (0.5, 4)], 0.0);
    assert_eq!(e.vars(), &[Var(4), Var(7)]);
    assert_eq!(e.coeffs(), &[2.0, 2.0]);
}

#[test]
fn add_terms_rejects_mismatched_lengths() {
    let e = LinExpr::new(0.0);
    let r = e.add_terms(&[1.0, 2.0], &[Var(0)], plus);
    assert!(matches!(r, Err(Error::DimensionMismatch)));
}

#[test]
fn add_terms_merges_in_order() {
    let e = expr_of(&[(1.0, 3)], 2.0);
    let r = e
        .add_terms(&[4.0, 1.0, 2.0], &[Var(5), Var(3), Var(5)], plus)
        .unwrap();
    assert_eq!(r.vars(), &[Var(3), Var(5)]);
    assert_eq!(r.coeffs(), &[2.0, 6.0]);
    assert_eq!(r.offset(), 2.0);
}

#[test]
fn negate_scale_divide() {
    let e = expr_of(&[(2.0, 0), (-4.0, 1)], 3.0);
    let n = e.negate(|c: f64| -c);
    assert_eq!(n.coeffs(), &[-2.0, 4.0]);
    assert_eq!(n.offset(), -3.0);
    let s = n.scale(2.0, |a: f64, b: f64| a * b);
    assert_eq!(s.coeffs(), &[-4.0, 8.0]);
    assert_eq!(s.offset(), -6.0);
    let d = s.divide(4.0, |a: f64, b: f64| a / b);
    assert_eq!(d.vars(), &[Var(0), Var(1)]);
    assert_eq!(d.coeffs(), &[-1.0, 2.0]);
    assert_eq!(d.offset(), -1.5);
}

#[test]
fn divide_by_zero_follows_ieee() {
    let e = expr_of(&[(2.0, 0), (-1.0, 1)], 0.0);
    let d = e.divide(0.0, |a: f64, b: f64| a / b);
    assert_eq!(d.coeffs()[0], f64::INFINITY);
    assert_eq!(d.coeffs()[1], f64::NEG_INFINITY);
    assert!(d.offset().is_nan());
}

#[test]
fn empty_expression_is_identity() {
    let e = expr_of(&[(1.0, 2), (3.0, 9)], 4.0);
    let left = LinExpr::new(0.0).combine(expr_of(&[(1.0, 2), (3.0, 9)], 4.0), plus);
    let right = e.combine(LinExpr::new(0.0), plus);
    assert_eq!(left.vars(), right.vars());
    assert_eq!(left.coeffs(), right.coeffs());
    assert_eq!(left.offset(), right.offset());
    assert_eq!(left.coeffs(), &[1.0, 3.0]);
}

#[test]
fn into_parts_gives_indices() {
    let e = expr_of(&[(1.0, 5), (2.0, 3)], 7.0);
    let (vars, coeffs, offset) = e.into_parts();
    assert_eq!(vars, vec![5, 3]);
    assert_eq!(coeffs, vec![1.0, 2.0]);
    assert_eq!(offset, 7.0);
}
