use vstd::prelude::*;

use crate::env::Env;
use crate::error::{Error, Result};
use crate::expr::LinExpr;
use crate::text::{check_name, valid_name};

verus! {

/// The kind of a variable (a column of the problem).
#[derive(Debug, Clone, Copy, PartialEq, Eq, Structural)]
pub enum VarType {
    Binary,
    Continuous,
    Integer,
}

/// The byte the native layer uses for each variable kind.
pub open spec fn var_type_code(t: VarType) -> u8 {
    match t {
        VarType::Binary => 66,  // 'B'
        VarType::Continuous => 67,  // 'C'
        VarType::Integer => 73,  // 'I'
    }
}

impl VarType {
    /// The native byte for this kind.
    pub fn code(self) -> (r: u8)
        ensures
            r == var_type_code(self),
    {
        match self {
            VarType::Binary => 66,
            VarType::Continuous => 67,
            VarType::Integer => 73,
        }
    }
}

/// The sense of a constraint (a row of the problem).
#[derive(Debug, Clone, Copy, PartialEq, Eq, Structural)]
pub enum ConstrSense {
    Equal,
    Greater,
    Less,
}

/// The byte the native layer uses for each constraint sense.
pub open spec fn constr_sense_code(s: ConstrSense) -> u8 {
    match s {
        ConstrSense::Equal => 69,  // 'E'
        ConstrSense::Greater => 71,  // 'G'
        ConstrSense::Less => 76,  // 'L'
    }
}

impl ConstrSense {
    /// The native byte for this sense.
    pub fn code(self) -> (r: u8)
        ensures
            r == constr_sense_code(self),
    {
        match self {
            ConstrSense::Equal => 69,
            ConstrSense::Greater => 71,
            ConstrSense::Less => 76,
        }
    }
}

/// The direction of optimization.
#[derive(Debug, Clone, Copy, PartialEq, Eq, Structural)]
pub enum ModelSense {
    Minimize,
    Maximize,
}

/// The native code of each direction.
pub open spec fn model_sense_code(s: ModelSense) -> i32 {
    match s {
        ModelSense::Minimize => 1,
        ModelSense::Maximize => -1i32,
    }
}

impl ModelSense {
    /// The native code for this direction.
    pub fn code(self) -> (r: i32)
        ensures
            r == model_sense_code(self),
    {
        match self {
            ModelSense::Minimize => 1,
            ModelSense::Maximize => -1i32,
        }
    }
}

/// The status the native layer reports for a solve.
#[derive(Debug, Clone, Copy, PartialEq, Eq, Structural)]
pub enum Status {
    Unstarted,
    Optimal,
    Infeasible,
    Unbounded,
    Numerical,
    InfOrUnb,
    NodeLimit,
    Imprecise,
    Timeout,
    Unfinished,
    Interrupted,
}

/// The native code of each status.
pub open spec fn status_code(s: Status) -> i32 {
    match s {
        Status::Unstarted => 0,
        Status::Optimal => 1,
        Status::Infeasible => 2,
        Status::Unbounded => 3,
        Status::Numerical => 4,
        Status::InfOrUnb => 5,
        Status::NodeLimit => 6,
        Status::Imprecise => 7,
        Status::Timeout => 8,
        Status::Unfinished => 9,
        Status::Interrupted => 10,
    }
}

impl Status {
    /// The native code for this status.
    pub fn code(self) -> (r: i32)
        ensures
            r == status_code(self),
    {
        match self {
            Status::Unstarted => 0,
            Status::Optimal => 1,
            Status::Infeasible => 2,
            Status::Unbounded => 3,
            Status::Numerical => 4,
            Status::InfOrUnb => 5,
            Status::NodeLimit => 6,
            Status::Imprecise => 7,
            Status::Timeout => 8,
            Status::Unfinished => 9,
            Status::Interrupted => 10,
        }
    }

    /// The status a native code stands for; `None` for a code outside the
    /// known range.
    pub fn from_code(code: i32) -> (r: Option<Status>)
        ensures
            r.is_some() <==> 0 <= code <= 10,
            r matches Some(s) ==> status_code(s) == code,
    {
        match code {
            0 => Some(Status::Unstarted),
            1 => Some(Status::Optimal),
            2 => Some(Status::Infeasible),
            3 => Some(Status::Unbounded),
            4 => Some(Status::Numerical),
            5 => Some(Status::InfOrUnb),
            6 => Some(Status::NodeLimit),
            7 => Some(Status::Imprecise),
            8 => Some(Status::Timeout),
            9 => Some(Status::Unfinished),
            10 => Some(Status::Interrupted),
            _ => None,
        }
    }
}

/// A variable: the 0-based index of a column of the model that made it.
#[derive(Debug, Clone, Copy, PartialEq, Eq, Structural)]
pub struct Var(pub i32);

impl Var {
    /// The column index.
    pub fn index(self) -> (r: i32)
        ensures
            r == self.0,
    {
        self.0
    }
}

/// A constraint: the 0-based index of a row of the model that made it.
pub type Constr = i32;

/// Copies a slice into a fresh vector.
fn copy_slice<T: Copy>(s: &[T]) -> (r: Vec<T>)
    ensures
        r@ == s@,
{
    let mut r: Vec<T> = Vec::new();
    let mut i: usize = 0;
    while i < s.len()
        invariant
            0 <= i <= s@.len(),
            r@ == s@.take(i as int),
        decreases s@.len() - i,
    {
        r.push(s[i]);
        i = i + 1;
        assert(r@ =~= s@.take(i as int));
    }
    assert(s@.take(s@.len() as int) =~= s@);
    r
}

/// What adding one column hands to the native layer.
pub struct ColumnRequest<'a, C> {
    pub name: &'a str,
    pub col_type: u8,
    pub obj: C,
    pub lower: C,
    pub upper: C,
    pub constrs: &'a [Constr],
    pub coeffs: &'a [C],
}

/// What adding one row hands to the native layer: the terms, the sense,
/// and the bound of the row.
pub struct RowRequest<'a, C> {
    pub name: &'a str,
    pub vars: Vec<i32>,
    pub coeffs: Vec<C>,
    pub sense: u8,
    pub bound: C,
}

/// What setting the objective hands to the native layer: the per-variable
/// coefficients, the constant where one is to be set, and the direction.
pub struct ObjectiveRequest<C> {
    pub vars: Vec<i32>,
    pub coeffs: Vec<C>,
    pub constant: Option<C>,
    pub sense: i32,
}

/// What a MIP start hands to the native layer: parallel column indices and
/// values.
pub struct MipStartRequest<C> {
    pub vars: Vec<i32>,
    pub values: Vec<C>,
}

/// `q` is the row `terms + offset (sense) rhs` named `name`: the terms as
/// column indices and coefficients, and the offset moved to the bound as
/// `minus(rhs, offset)`.
pub open spec fn row_from_expr<C, F: Fn(C, C) -> C>(
    q: RowRequest<'_, C>,
    name: Seq<char>,
    vars: Seq<Var>,
    coeffs: Seq<C>,
    offset: C,
    sense: ConstrSense,
    rhs: C,
    minus: F,
) -> bool {
    &&& q.name@ == name
    &&& q.vars@.len() == vars.len()
    &&& forall|i: int| 0 <= i < q.vars@.len() ==> #[trigger] q.vars@[i] == vars[i].0
    &&& q.coeffs@ == coeffs
    &&& q.sense == constr_sense_code(sense)
    &&& minus.ensures((rhs, offset), q.bound)
}

/// A constraint on an expression with offset `c` is the same row as the
/// constraint on that expression without offset whose right-hand side is
/// `rhs - c`, wherever subtraction is a function and subtracting zero
/// changes nothing.
pub proof fn lemma_offset_moves_to_bound<C, F: Fn(C, C) -> C>(
    with_offset: RowRequest<'_, C>,
    without_offset: RowRequest<'_, C>,
    name: Seq<char>,
    vars: Seq<Var>,
    coeffs: Seq<C>,
    c: C,
    zero: C,
    sense: ConstrSense,
    rhs: C,
    rhs_minus_c: C,
    minus: F,
)
    requires
        forall|x: C, y: C, r1: C, r2: C|
            #![trigger minus.ensures((x, y), r1), minus.ensures((x, y), r2)]
            minus.ensures((x, y), r1) && minus.ensures((x, y), r2) ==> r1 == r2,
        forall|x: C, r: C| #[trigger] minus.ensures((x, zero), r) ==> r == x,
        minus.ensures((rhs, c), rhs_minus_c),
        row_from_expr(with_offset, name, vars, coeffs, c, sense, rhs, minus),
        row_from_expr(without_offset, name, vars, coeffs, zero, sense, rhs_minus_c, minus),
    ensures
        with_offset.vars@ == without_offset.vars@,
        with_offset.coeffs@ == without_offset.coeffs@,
        with_offset.sense == without_offset.sense,
        with_offset.bound == without_offset.bound,
{
    assert(with_offset.vars@ =~= without_offset.vars@);
}

/// One optimization problem: its native handle, a non-owning view of the
/// environment it was created in, and the numbers of variables and
/// constraints it has handed out.
///
/// Each operation that changes the problem comes in two steps: a request,
/// which checks the arguments and says exactly what to hand to the native
/// layer, and a record, which takes the native return code and says what the
/// operation returns. Variables and constraints are numbered from 0, in the
/// order of their successful additions, by two independent counters.
pub struct Model<P, E> {
    prob: P,
    env: Env<E>,
    var_count: i32,
    constr_count: i32,
}

impl<P, E> Model<P, E> {
    #[verifier::type_invariant]
    spec fn inv(&self) -> bool {
        &&& self.var_count >= 0
        &&& self.constr_count >= 0
    }
}

impl<P: Copy, E: Copy> Model<P, E> {
    /// The native problem handle.
    pub closed spec fn spec_prob(&self) -> P {
        self.prob
    }

    /// The environment view the model holds.
    pub closed spec fn spec_env(&self) -> Env<E> {
        self.env
    }

    /// How many variables have been added.
    pub closed spec fn spec_var_count(&self) -> i32 {
        self.var_count
    }

    /// How many constraints have been added.
    pub closed spec fn spec_constr_count(&self) -> i32 {
        self.constr_count
    }

    /// A model for the freshly created problem `prob` of environment `env`.
    /// The model keeps a non-owning view of `env`.
    pub fn new(env: &Env<E>, prob: P) -> (r: Self)
        ensures
            r.spec_prob() == prob,
            r.spec_env().spec_handle() == env.spec_handle(),
            !r.spec_env().spec_owns_handle(),
            r.spec_var_count() == 0,
            r.spec_constr_count() == 0,
    {
        Model { prob, env: Env::shallow_copy(env), var_count: 0, constr_count: 0 }
    }

    /// The native problem handle.
    pub fn prob(&self) -> (r: P)
        ensures
            r == self.spec_prob(),
    {
        self.prob
    }

    /// The environment view the model holds.
    pub fn env(&self) -> (r: &Env<E>)
        ensures
            *r == self.spec_env(),
    {
        &self.env
    }

    /// How many variables have been added.
    pub fn var_count(&self) -> (r: i32)
        ensures
            r == self.spec_var_count(),
            r >= 0,
    {
        proof {
            use_type_invariant(self);
        }
        self.var_count
    }

    /// How many constraints have been added.
    pub fn constr_count(&self) -> (r: i32)
        ensures
            r == self.spec_constr_count(),
            r >= 0,
    {
        proof {
            use_type_invariant(self);
        }
        self.constr_count
    }

    /// Checks a new column and builds what to hand to the native layer.
    /// Fails with `DimensionMismatch` when `constrs` and `coeffs` differ in
    /// length, then with `InvalidName` for a name that cannot reach the
    /// native layer; nothing is changed either way.
    pub fn add_var_request<'a, C: Copy>(
        &self,
        name: &'a str,
        vtype: VarType,
        obj: C,
        lower: C,
        upper: C,
        constrs: &'a [Constr],
        coeffs: &'a [C],
    ) -> (r: Result<ColumnRequest<'a, C>>)
        ensures
            constrs@.len() != coeffs@.len() ==> r == Err::<ColumnRequest<'a, C>, Error>(
                Error::DimensionMismatch,
            ),
            constrs@.len() == coeffs@.len() && !valid_name(name@) ==> r == Err::<
                ColumnRequest<'a, C>,
                Error,
            >(Error::InvalidName),
            constrs@.len() == coeffs@.len() && valid_name(name@) ==> (r matches Ok(q) && q.name@
                == name@ && q.col_type == var_type_code(vtype) && q.obj == obj && q.lower == lower
                && q.upper == upper && q.constrs@ == constrs@ && q.coeffs@ == coeffs@),
    {
        if constrs.len() != coeffs.len() {
            return Err(Error::DimensionMismatch);
        }
        check_name(name)?;
        Ok(
            ColumnRequest {
                name,
                col_type: vtype.code(),
                obj,
                lower,
                upper,
                constrs,
                coeffs,
            },
        )
    }

    /// Records the native answer to a column addition. On success the new
    /// variable is numbered with the count of variables before it, and the
    /// count goes up by one; on failure nothing changes.
    pub fn record_var_added(&mut self, code: i32) -> (r: Result<Var>)
        requires
            old(self).spec_var_count() < i32::MAX,
        ensures
            var_recorded(*old(self), *final(self), code, r),
    {
        if code != 0 {
            return Err(Error::NativeError(code));
        }
        proof {
            use_type_invariant(&*self);
        }
        let index = self.var_count;
        self.var_count = index + 1;
        Ok(Var(index))
    }

    /// Checks a new row given as parallel slices and builds what to hand to
    /// the native layer. Fails with `DimensionMismatch` when `vars` and
    /// `coeffs` differ in length, then with `InvalidName`.
    pub fn add_constr_low_level_request<'a, C: Copy>(
        &self,
        name: &'a str,
        vars: &[i32],
        coeffs: &[C],
        sense: ConstrSense,
        rhs: C,
    ) -> (r: Result<RowRequest<'a, C>>)
        ensures
            vars@.len() != coeffs@.len() ==> r == Err::<RowRequest<'a, C>, Error>(
                Error::DimensionMismatch,
            ),
            vars@.len() == coeffs@.len() && !valid_name(name@) ==> r == Err::<
                RowRequest<'a, C>,
                Error,
            >(Error::InvalidName),
            vars@.len() == coeffs@.len() && valid_name(name@) ==> (r matches Ok(q) && q.name@
                == name@ && q.vars@ == vars@ && q.coeffs@ == coeffs@ && q.sense
                == constr_sense_code(sense) && q.bound == rhs),
    {
        if vars.len() != coeffs.len() {
            return Err(Error::DimensionMismatch);
        }
        check_name(name)?;
        Ok(
            RowRequest {
                name,
                vars: copy_slice(vars),
                coeffs: copy_slice(coeffs),
                sense: sense.code(),
                bound: rhs,
            },
        )
    }

    /// Builds the row `expr (sense) rhs`. The constant of `expr` is moved to
    /// the right-hand side: the bound handed on is `minus(rhs, offset)`.
    /// Fails with `InvalidName` for a name that cannot reach the native layer.
    pub fn add_constr_request<'a, C: Copy, F: Fn(C, C) -> C>(
        &self,
        name: &'a str,
        expr: LinExpr<C>,
        sense: ConstrSense,
        rhs: C,
        minus: F,
    ) -> (r: Result<RowRequest<'a, C>>)
        requires
            forall|x: C, y: C| minus.requires((x, y)),
        ensures
            !valid_name(name@) ==> r == Err::<RowRequest<'a, C>, Error>(Error::InvalidName),
            valid_name(name@) ==> (r matches Ok(q) && row_from_expr(
                q,
                name@,
                expr.spec_vars(),
                expr.spec_coeffs(),
                expr.spec_offset(),
                sense,
                rhs,
                minus,
            )),
    {
        check_name(name)?;
        let (vars, coeffs, offset) = expr.into_parts();
        let bound = minus(rhs, offset);
        Ok(RowRequest { name, vars, coeffs, sense: sense.code(), bound })
    }

    /// Records the native answer to a row addition. On success the new
    /// constraint is numbered with the count of constraints before it, and
    /// the count goes up by one; on failure nothing changes. The variable
    /// count is never touched.
    pub fn record_constr_added(&mut self, code: i32) -> (r: Result<Constr>)
        requires
            old(self).spec_constr_count() < i32::MAX,
        ensures
            constr_recorded(*old(self), *final(self), code, r),
    {
        if code != 0 {
            return Err(Error::NativeError(code));
        }
        proof {
            use_type_invariant(&*self);
        }
        let index = self.constr_count;
        self.constr_count = index + 1;
        Ok(index)
    }

    /// Builds the objective given as parallel slices, with no constant.
    /// Fails with `DimensionMismatch` when `vars` and `coeffs` differ in
    /// length.
    pub fn set_objective_low_level_request<C: Copy>(
        &self,
        vars: &[i32],
        coeffs: &[C],
        sense: ModelSense,
    ) -> (r: Result<ObjectiveRequest<C>>)
        ensures
            vars@.len() != coeffs@.len() ==> r == Err::<ObjectiveRequest<C>, Error>(
                Error::DimensionMismatch,
            ),
            vars@.len() == coeffs@.len() ==> (r matches Ok(q) && q.vars@ == vars@ && q.coeffs@
                == coeffs@ && q.constant.is_none() && q.sense == model_sense_code(sense)),
    {
        if vars.len() != coeffs.len() {
            return Err(Error::DimensionMismatch);
        }
        Ok(
            ObjectiveRequest {
                vars: copy_slice(vars),
                coeffs: copy_slice(coeffs),
                constant: None,
                sense: sense.code(),
            },
        )
    }

    /// Builds the objective `expr` in direction `sense`. The offset of
    /// `expr` is set as the objective constant unless `is_zero` says it is
    /// zero, in which case no constant is set.
    pub fn set_objective_request<C: Copy, Z: Fn(C) -> bool>(
        &self,
        expr: LinExpr<C>,
        sense: ModelSense,
        is_zero: Z,
    ) -> (r: ObjectiveRequest<C>)
        requires
            forall|x: C| is_zero.requires((x,)),
        ensures
            r.vars@.len() == expr.spec_vars().len(),
            forall|i: int| 0 <= i < r.vars@.len() ==> #[trigger] r.vars@[i] == expr.spec_vars()[i].0,
            r.coeffs@ == expr.spec_coeffs(),
            r.sense == model_sense_code(sense),
            match r.constant {
                None => is_zero.ensures((expr.spec_offset(),), true),
                Some(c) => c == expr.spec_offset() && is_zero.ensures((expr.spec_offset(),), false),
            },
    {
        let (vars, coeffs, offset) = expr.into_parts();
        let constant = if is_zero(offset) {
            None
        } else {
            Some(offset)
        };
        ObjectiveRequest { vars, coeffs, constant, sense: sense.code() }
    }

    /// Flattens a MIP start into parallel index and value vectors. An empty
    /// start gives `None`: nothing is to be handed to the native layer.
    pub fn mip_start_request<C: Copy>(&self, start: &Vec<(i32, C)>) -> (r: Option<
        MipStartRequest<C>,
    >)
        ensures
            r is None <==> start@.len() == 0,
            r matches Some(q) ==> q.vars@.len() == start@.len() && q.values@.len() == start@.len()
                && forall|i: int|
                0 <= i < start@.len() ==> #[trigger] q.vars@[i] == start@[i].0 && q.values@[i]
                    == start@[i].1,
    {
        if start.len() == 0 {
            return None;
        }
        let mut vars: Vec<i32> = Vec::new();
        let mut values: Vec<C> = Vec::new();
        let mut i: usize = 0;
        while i < start.len()
            invariant
                0 <= i <= start@.len(),
                vars@.len() == i,
                values@.len() == i,
                forall|k: int|
                    0 <= k < i ==> #[trigger] vars@[k] == start@[k].0 && values@[k] == start@[k].1,
            decreases start@.len() - i,
        {
            let (v, x) = start[i];
            vars.push(v);
            values.push(x);
            i = i + 1;
        }
        Some(MipStartRequest { vars, values })
    }

    /// A buffer with one slot per variable, each holding `zero`, for the
    /// native layer to fill with a solution.
    pub fn solution_buffer<C: Copy>(&self, zero: C) -> (r: Vec<C>)
        ensures
            r@.len() == self.spec_var_count(),
            forall|i: int| 0 <= i < r@.len() ==> #[trigger] r@[i] == zero,
    {
        proof {
            use_type_invariant(self);
        }
        let n = self.var_count as usize;
        let mut r: Vec<C> = Vec::new();
        let mut i: usize = 0;
        while i < n
            invariant
                0 <= i <= n,
                r@.len() == i,
                forall|k: int| 0 <= k < i ==> #[trigger] r@[k] == zero,
            decreases n - i,
        {
            r.push(zero);
            i = i + 1;
        }
        r
    }
}

/// A column addition whose native code was `code` took the model from
/// `before` to `after` and returned `r`: on success the variable numbered
/// with the count before it, and the count one higher; on failure the error
/// and nothing changed. The constraint count and the handles never change.
pub open spec fn var_recorded<P: Copy, E: Copy>(
    before: Model<P, E>,
    after: Model<P, E>,
    code: i32,
    r: Result<Var>,
) -> bool {
    &&& code == 0 ==> r == Ok::<Var, Error>(Var(before.spec_var_count()))
        && after.spec_var_count() == before.spec_var_count() + 1
    &&& code != 0 ==> r == Err::<Var, Error>(Error::NativeError(code)) && after.spec_var_count()
        == before.spec_var_count()
    &&& after.spec_constr_count() == before.spec_constr_count()
    &&& after.spec_prob() == before.spec_prob()
    &&& after.spec_env() == before.spec_env()
}

/// A row addition whose native code was `code` took the model from `before`
/// to `after` and returned `r`: on success the constraint numbered with the
/// count before it, and the count one higher; on failure the error and
/// nothing changed. The variable count and the handles never change.
pub open spec fn constr_recorded<P: Copy, E: Copy>(
    before: Model<P, E>,
    after: Model<P, E>,
    code: i32,
    r: Result<Constr>,
) -> bool {
    &&& code == 0 ==> r == Ok::<Constr, Error>(before.spec_constr_count())
        && after.spec_constr_count() == before.spec_constr_count() + 1
    &&& code != 0 ==> r == Err::<Constr, Error>(Error::NativeError(code))
        && after.spec_constr_count() == before.spec_constr_count()
    &&& after.spec_var_count() == before.spec_var_count()
    &&& after.spec_prob() == before.spec_prob()
    &&& after.spec_env() == before.spec_env()
}

/// How many of the first `k` additions were successful additions of
/// variables (`of_vars`) or of constraints (`!of_vars`).
pub open spec fn successes(is_var: Seq<bool>, codes: Seq<i32>, of_vars: bool, k: int) -> int
    decreases k,
{
    if k <= 0 {
        0
    } else {
        successes(is_var, codes, of_vars, k - 1) + if is_var[k - 1] == of_vars && codes[k - 1]
            == 0 {
            1int
        } else {
            0int
        }
    }
}

/// One addition of a run: of a variable where `is_var`, else of a constraint.
pub open spec fn addition<P: Copy, E: Copy>(
    before: Model<P, E>,
    after: Model<P, E>,
    is_var: bool,
    code: i32,
    var_result: Result<Var>,
    constr_result: Result<Constr>,
) -> bool {
    if is_var {
        var_recorded(before, after, code, var_result)
    } else {
        constr_recorded(before, after, code, constr_result)
    }
}

proof fn lemma_counts<P: Copy, E: Copy>(
    states: Seq<Model<P, E>>,
    is_var: Seq<bool>,
    codes: Seq<i32>,
    var_results: Seq<Result<Var>>,
    constr_results: Seq<Result<Constr>>,
    k: int,
)
    requires
        states.len() == codes.len() + 1,
        is_var.len() == codes.len(),
        var_results.len() == codes.len(),
        constr_results.len() == codes.len(),
        states[0].spec_var_count() == 0,
        states[0].spec_constr_count() == 0,
        forall|j: int|
            0 <= j < codes.len() ==> addition(
                #[trigger] states[j],
                states[j + 1],
                is_var[j],
                codes[j],
                var_results[j],
                constr_results[j],
            ),
        0 <= k <= codes.len(),
    ensures
        states[k].spec_var_count() == successes(is_var, codes, true, k),
        states[k].spec_constr_count() == successes(is_var, codes, false, k),
    decreases k,
{
    if k > 0 {
        lemma_counts(states, is_var, codes, var_results, constr_results, k - 1);
        assert(addition(
            states[k - 1],
            states[k],
            is_var[k - 1],
            codes[k - 1],
            var_results[k - 1],
            constr_results[k - 1],
        ));
    }
}

/// In any run of additions on a new model, interleaved in any order, the
/// successful variable additions return the variables 0, 1, 2, ... and the
/// successful constraint additions return the constraints 0, 1, 2, ..., in
/// call order, each counter unaffected by the other and by failed calls.
pub proof fn lemma_indices_sequential<P: Copy, E: Copy>(
    states: Seq<Model<P, E>>,
    is_var: Seq<bool>,
    codes: Seq<i32>,
    var_results: Seq<Result<Var>>,
    constr_results: Seq<Result<Constr>>,
)
    requires
        states.len() == codes.len() + 1,
        is_var.len() == codes.len(),
        var_results.len() == codes.len(),
        constr_results.len() == codes.len(),
        states[0].spec_var_count() == 0,
        states[0].spec_constr_count() == 0,
        forall|j: int|
            0 <= j < codes.len() ==> addition(
                #[trigger] states[j],
                states[j + 1],
                is_var[j],
                codes[j],
                var_results[j],
                constr_results[j],
            ),
    ensures
        forall|k: int|
            0 <= k < codes.len() && is_var[k] && codes[k] == 0 ==> #[trigger] var_results[k]
                == Ok::<Var, Error>(Var(successes(is_var, codes, true, k) as i32)),
        forall|k: int|
            0 <= k < codes.len() && !is_var[k] && codes[k] == 0 ==> #[trigger] constr_results[k]
                == Ok::<Constr, Error>(successes(is_var, codes, false, k) as i32),
{
    assert forall|k: int| 0 <= k < codes.len() && is_var[k] && codes[k] == 0 implies #[trigger] var_results[k]
        == Ok::<Var, Error>(Var(successes(is_var, codes, true, k) as i32)) by {
        lemma_counts(states, is_var, codes, var_results, constr_results, k);
        assert(addition(states[k], states[k + 1], is_var[k], codes[k], var_results[k], constr_results[k]));
    }
    assert forall|k: int| 0 <= k < codes.len() && !is_var[k] && codes[k] == 0 implies #[trigger] constr_results[k]
        == Ok::<Constr, Error>(successes(is_var, codes, false, k) as i32) by {
        lemma_counts(states, is_var, codes, var_results, constr_results, k);
        assert(addition(states[k], states[k + 1], is_var[k], codes[k], var_results[k], constr_results[k]));
    }
}

} // verus!
