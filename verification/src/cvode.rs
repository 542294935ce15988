//! CVODE — explicit ODE initial value problems `y' = f(t, y)`.
//!
//! [`CvodeOptions`] holds what the creation of a CVODE solver decides on:
//! the method, the number of equations, the kind of absolute tolerance and
//! the step limit.  [`CvodeOptions::build_calls`] lists the SUNDIALS calls that
//! create the solver, in order.

use vstd::prelude::*;

use crate::calls::{SundialsCall, VectorRole, CV_ADAMS, CV_BDF};

verus! {

/// ODE integration method.
#[derive(Debug, Clone, Copy, PartialEq, Eq, Structural)]
pub enum Method {
    /// Adams-Moulton — best for non-stiff problems.
    Adams,
    /// Backward Differentiation Formula — best for stiff problems.
    BDF,
}

/// The code CVODE knows a method by.
pub open spec fn method_code(method: Method) -> i32 {
    match method {
        Method::Adams => CV_ADAMS,
        Method::BDF => CV_BDF,
    }
}

impl Method {
    /// The code that `CVodeCreate` takes for this method.
    pub fn as_c_int(self) -> (r: i32)
        ensures
            r == method_code(self),
    {
        match self {
            Method::Adams => CV_ADAMS,
            Method::BDF => CV_BDF,
        }
    }
}

/// The two methods have different codes.
pub proof fn law_method_codes_differ()
    ensures
        method_code(Method::Adams) != method_code(Method::BDF),
{
}

/// How the absolute tolerance is given: one value for all components, or one
/// value per component (a vector of `len` values).
#[derive(Debug, Clone, Copy, PartialEq, Eq, Structural)]
pub enum AtolMode {
    Scalar,
    Vector { len: usize },
}

/// The calls that hand the tolerances to the solver: a scalar tolerance is
/// one call; a vector tolerance first creates the vector that carries it.
pub open spec fn tolerance_calls(atol: AtolMode) -> Seq<SundialsCall> {
    match atol {
        AtolMode::Scalar => seq![SundialsCall::ScalarTolerances],
        AtolMode::Vector { len } => seq![SundialsCall::NewVector { len, role: VectorRole::AbsoluteTolerance }, SundialsCall::VectorTolerances],
    }
}

/// The step limit is handed over only when one was set.
pub open spec fn max_steps_calls(max_steps: Option<i64>) -> Seq<SundialsCall> {
    match max_steps {
        Some(n) => seq![SundialsCall::SetMaxNumSteps { max_steps: n }],
        None => Seq::empty(),
    }
}

/// The dense matrix and linear solver that every solver uses.
pub open spec fn dense_solver_calls(neq: usize) -> Seq<SundialsCall> {
    seq![
        SundialsCall::NewDenseMatrix { rows: neq, cols: neq },
        SundialsCall::NewDenseLinearSolver,
        SundialsCall::SetLinearSolver,
    ]
}

pub fn push_tolerance_calls(v: &mut Vec<SundialsCall>, atol: AtolMode)
    ensures
        final(v)@ == old(v)@ + tolerance_calls(atol),
{
    match atol {
        AtolMode::Scalar => v.push(SundialsCall::ScalarTolerances),
        AtolMode::Vector { len } => {
            v.push(SundialsCall::NewVector { len, role: VectorRole::AbsoluteTolerance });
            v.push(SundialsCall::VectorTolerances);
        },
    }
    assert(v@ =~= old(v)@ + tolerance_calls(atol));
}

pub fn push_max_steps_calls(v: &mut Vec<SundialsCall>, max_steps: Option<i64>)
    ensures
        final(v)@ == old(v)@ + max_steps_calls(max_steps),
{
    if let Some(n) = max_steps {
        v.push(SundialsCall::SetMaxNumSteps { max_steps: n });
    }
    assert(v@ =~= old(v)@ + max_steps_calls(max_steps));
}

pub fn push_dense_solver_calls(v: &mut Vec<SundialsCall>, neq: usize)
    ensures
        final(v)@ == old(v)@ + dense_solver_calls(neq),
{
    v.push(SundialsCall::NewDenseMatrix { rows: neq, cols: neq });
    v.push(SundialsCall::NewDenseLinearSolver);
    v.push(SundialsCall::SetLinearSolver);
    assert(v@ =~= old(v)@ + dense_solver_calls(neq));
}

/// What creating a CVODE solver decides on.
#[derive(Debug, Clone, Copy, PartialEq, Eq, Structural)]
pub struct CvodeOptions {
    pub method: Method,
    /// The number of equations: the length of `y0`.
    pub neq: usize,
    pub atol: AtolMode,
    pub max_steps: Option<i64>,
}

/// A tolerance vector holds one tolerance per equation.
pub open spec fn atol_fits(atol: AtolMode, neq: usize) -> bool {
    match atol {
        AtolMode::Scalar => true,
        AtolMode::Vector { len } => len == neq,
    }
}

impl CvodeOptions {
    /// The options a solver can be created from: a tolerance vector, if
    /// any, has one value per equation.
    pub open spec fn wf(self) -> bool {
        atol_fits(self.atol, self.neq)
    }
}

/// The calls that create a CVODE solver: a context, the integrator memory for
/// the method, the state vector, initialisation, the tolerances, the user
/// data, the step limit if one was set, then the dense linear solver.
pub open spec fn cvode_build_calls(o: CvodeOptions) -> Seq<SundialsCall> {
    seq![
        SundialsCall::CreateContext,
        SundialsCall::CreateSolverMemory { method_code: method_code(o.method) },
        SundialsCall::NewVector { len: o.neq, role: VectorRole::State },
        SundialsCall::Init,
    ] + tolerance_calls(o.atol) + seq![SundialsCall::SetUserData] + max_steps_calls(o.max_steps)
        + dense_solver_calls(o.neq)
}

impl CvodeOptions {
    /// The defaults: a scalar absolute tolerance and no step limit.
    pub fn new(method: Method, neq: usize) -> (r: CvodeOptions)
        ensures
            r == (CvodeOptions { method, neq, atol: AtolMode::Scalar, max_steps: None }),
            r.wf(),
    {
        CvodeOptions { method, neq, atol: AtolMode::Scalar, max_steps: None }
    }

    /// One absolute tolerance for all components.
    pub fn atol(self) -> (r: CvodeOptions)
        ensures
            r == (CvodeOptions { atol: AtolMode::Scalar, ..self }),
    {
        CvodeOptions { atol: AtolMode::Scalar, ..self }
    }

    /// Per-component absolute tolerances, one per equation.
    pub fn atol_vec(self, len: usize) -> (r: CvodeOptions)
        requires
            len == self.neq,
        ensures
            r == (CvodeOptions { atol: AtolMode::Vector { len }, ..self }),
    {
        CvodeOptions { atol: AtolMode::Vector { len }, ..self }
    }

    /// The maximum number of internal steps per call to the integrator.
    pub fn max_steps(self, n: i64) -> (r: CvodeOptions)
        ensures
            r == (CvodeOptions { max_steps: Some(n), ..self }),
    {
        CvodeOptions { max_steps: Some(n), ..self }
    }

    /// The calls that create the solver, in order.
    pub fn build_calls(&self) -> (r: Vec<SundialsCall>)
        requires
            self.wf(),
        ensures
            r@ == cvode_build_calls(*self),
    {
        let mut v: Vec<SundialsCall> = Vec::new();
        v.push(SundialsCall::CreateContext);
        v.push(SundialsCall::CreateSolverMemory { method_code: self.method.as_c_int() });
        v.push(SundialsCall::NewVector { len: self.neq, role: VectorRole::State });
        v.push(SundialsCall::Init);
        push_tolerance_calls(&mut v, self.atol);
        v.push(SundialsCall::SetUserData);
        push_max_steps_calls(&mut v, self.max_steps);
        push_dense_solver_calls(&mut v, self.neq);
        assert(v@ =~= cvode_build_calls(*self));
        v
    }
}

} // verus!
