use copt::{
    check_code, check_value, ConstrSense, Env, Error, FromRaw, LinExpr, Model, ModelSense,
    Status, Var, VarType,
};

fn plus(a: f64, b: f64) -> f64 {
    a + b
}

fn model() -> Model<u64, u64> {
    let env: Env<u64> = Env::new(11);
    Model::new(&env, 22)
}

#[test]
fn var_indices_are_sequential() {
    let mut m = model();
    let mut got = Vec::new();
    for code in [0, 0, 5, 0] {
        let req = m
            .add_var_request("x", VarType::Continuous, 1.0, 0.0, 10.0, &[], &[])
            .unwrap();
        assert_eq!(req.col_type, b'C');
        got.push(m.record_var_added(code));
    }
    assert_eq!(got[0], Ok(Var(0)));
    assert_eq!(got[1], Ok(Var(1)));
    assert_eq!(got[2], Err(Error::NativeError(5)));
    assert_eq!(got[3], Ok(Var(2)));
    assert_eq!(m.var_count(), 3);
    assert_eq!(m.constr_count(), 0);
}

#[test]
fn constr_indices_are_independent_of_vars() {
    let mut m = model();
    m.record_var_added(0).unwrap();
    m.record_var_added(0).unwrap();
    assert_eq!(m.record_constr_added(0), Ok(0));
    assert_eq!(m.record_constr_added(1), Err(Error::NativeError(1)));
    assert_eq!(m.record_constr_added(0), Ok(1));
    assert_eq!(m.var_count(), 2);
    assert_eq!(m.constr_count(), 2);
}

#[test]
fn mismatched_dimensions_change_nothing() {
    let mut m = model();
    m.record_var_added(0).unwrap();
    let r = m.add_var_request("y", VarType::Integer, 0.0, 0.0, 1.0, &[0, 1], &[1.0]);
    assert!(matches!(r, Err(Error::DimensionMismatch)));
    let r = m.add_constr_low_level_request("c", &[0], &[1.0, 2.0], ConstrSense::Less, 3.0);
    assert!(matches!(r, Err(Error::DimensionMismatch)));
    let r = m.set_objective_low_level_request(&[0, 1], &[1.0], ModelSense::Minimize);
    assert!(matches!(r, Err(Error::DimensionMismatch)));
    assert_eq!(m.var_count(), 1);
    assert_eq!(m.constr_count(), 0);
}

#[test]
fn dimension_check_comes_before_name_check() {
    let m = model();
    let r = m.add_var_request("a\0b", VarType::Binary, 0.0, 0.0, 1.0, &[0], &[]);
    assert!(matches!(r, Err(Error::DimensionMismatch)));
    let r = m.add_var_request("a\0b", VarType::Binary, 0.0, 0.0, 1.0, &[0], &[1.0]);
    assert!(matches!(r, Err(Error::InvalidName)));
}

#[test]
fn column_request_carries_arguments() {
    let m = model();
    let req = m
        .add_var_request("z", VarType::Binary, 2.5, 0.0, 1.0, &[0, 3], &[1.0, -1.0])
        .unwrap();
    assert_eq!(req.name, "z");
    assert_eq!(req.col_type, b'B');
    assert_eq!(req.obj, 2.5);
    assert_eq!(req.lower, 0.0);
    assert_eq!(req.upper, 1.0);
    assert_eq!(req.constrs, &[0, 3]);
    assert_eq!(req.coeffs, &[1.0, -1.0]);
}

#[test]
fn constraint_offset_moves_to_bound() {
    let m = model();
    let e = LinExpr::new(0.0)
        .add_term(2.0, Var(0), plus)
        .add_term(1.0, Var(1), plus)
        .add_constant(3.0, plus);
    let q = m
        .add_constr_request("c", e, ConstrSense::Greater, 10.0, |a: f64, b: f64| a - b)
        .unwrap();
    assert_eq!(q.vars, vec![0, 1]);
    assert_eq!(q.coeffs, vec![2.0, 1.0]);
    assert_eq!(q.sense, b'G');
    assert_eq!(q.bound, 7.0);
    let e2 = LinExpr::new(0.0)
        .add_term(2.0, Var(0), plus)
        .add_term(1.0, Var(1), plus);
    let q2 = m
        .add_constr_request("c", e2, ConstrSense::Greater, 10.0 - 3.0, |a: f64, b: f64| a - b)
        .unwrap();
    assert_eq!(q.vars, q2.vars);
    assert_eq!(q.coeffs, q2.coeffs);
    assert_eq!(q.bound, q2.bound);
}

#[test]
fn constraint_name_with_terminator_is_refused() {
    let m = model();
    let e = LinExpr::new(0.0).add_term(1.0, Var(0), plus);
    let r = m.add_constr_request("bad\0", e, ConstrSense::Equal, 1.0, |a: f64, b: f64| a - b);
    assert!(matches!(r, Err(Error::InvalidName)));
}

#[test]
fn low_level_row_request() {
    let m = model();
    let q = m
        .add_constr_low_level_request("r", &[2, 0], &[1.0, 4.0], ConstrSense::Equal, 5.0)
        .unwrap();
    assert_eq!(q.vars, vec![2, 0]);
    assert_eq!(q.coeffs, vec![1.0, 4.0]);
    assert_eq!(q.sense, b'E');
    assert_eq!(q.bound, 5.0);
}

#[test]
fn objective_constant_only_when_nonzero() {
    let m = model();
    let e = LinExpr::new(0.0).add_term(1.0, Var(0), plus);
    let q = m.set_objective_request(e, ModelSense::Maximize, |c: f64| c == 0.0);
    assert_eq!(q.constant, None);
    assert_eq!(q.sense, -1);
    let e = LinExpr::new(0.0).add_term(1.0, Var(0), plus).add_constant(2.0, plus);
    let q = m.set_objective_request(e, ModelSense::Minimize, |c: f64| c == 0.0);
    assert_eq!(q.vars, vec![0]);
    assert_eq!(q.coeffs, vec![1.0]);
    assert_eq!(q.constant, Some(2.0));
    assert_eq!(q.sense, 1);
}

#[test]
fn empty_mip_start_asks_for_nothing() {
    let m = model();
    let start: Vec<(i32, f64)> = Vec::new();
    assert!(m.mip_start_request(&start).is_none());
}

#[test]
fn mip_start_is_flattened() {
    let m = model();
    let start = vec![(3, 1.0), (0, 0.5)];
    let q = m.mip_start_request(&start).unwrap();
    assert_eq!(q.vars, vec![3, 0]);
    assert_eq!(q.values, vec![1.0, 0.5]);
}

#[test]
fn solution_buffer_has_one_slot_per_variable() {
    let mut m = model();
    assert!(m.solution_buffer(0.0).is_empty());
    m.record_var_added(0).unwrap();
    m.record_var_added(0).unwrap();
    assert_eq!(m.solution_buffer(0.0), vec![0.0, 0.0]);
}

#[test]
fn model_holds_non_owning_env() {
    let env: Env<u64> = Env::new(11);
    let m: Model<u64, u64> = Model::new(&env, 22);
    assert_eq!(m.prob(), 22);
    assert_eq!(m.env().handle(), 11);
    assert!(!m.env().owns_handle());
    assert!(env.owns_handle());
}

#[test]
fn only_the_owner_releases() {
    let env: Env<u64> = Env::new(5);
    let copy = Env::shallow_copy(&env);
    let raw: Env<u64> = Env::from_raw(5);
    assert_eq!(copy.handle(), 5);
    assert_eq!(copy.release(), None);
    assert_eq!(raw.release(), None);
    assert_eq!(env.release(), Some(5));
}

#[test]
fn codes_and_statuses() {
    assert_eq!(check_code(0), Ok(()));
    assert_eq!(check_code(3), Err(Error::NativeError(3)));
    assert_eq!(check_value(0, 2.5), Ok(2.5));
    assert_eq!(check_value(4, 2.5), Err(Error::NativeError(4)));
    assert_eq!(Error::UnsupportedFormat.native_code(), Some(2));
    assert_eq!(Error::NativeError(9).native_code(), Some(9));
    assert_eq!(Error::InvalidName.native_code(), None);
    assert_eq!(Status::from_code(10), Some(Status::Interrupted));
    assert_eq!(Status::from_code(1), Some(Status::Optimal));
    assert_eq!(Status::from_code(11), None);
    assert_eq!(Status::from_code(-1), None);
    assert_eq!(Status::Timeout.code(), 8);
    assert_eq!(VarType::Integer.code(), b'I');
    assert_eq!(ConstrSense::Less.code(), b'L');
    assert_eq!(ModelSense::Minimize.code(), 1);
}
