//! CVODES — CVODE with forward sensitivity analysis.
//!
//! CVODES always integrates with BDF.  When forward sensitivities are asked
//! for, creation also makes one vector per initial sensitivity, initialises
//! the sensitivity module with the chosen method, selects estimated
//! tolerances for it, and — when there is at least one sensitivity vector —
//! hands the parameter array to the solver.

use vstd::prelude::*;

use crate::calls::{SundialsCall, VectorRole, CV_BDF, CV_SIMULTANEOUS, CV_STAGGERED};
use crate::cvode::{
    atol_fits, dense_solver_calls, push_dense_solver_calls, push_tolerance_calls, tolerance_calls, AtolMode,
};

verus! {

/// How the sensitivity equations are corrected together with the state.
#[derive(Debug, Clone, Copy, PartialEq, Eq, Structural)]
pub enum SensMethod {
    Simultaneous,
    Staggered,
}

/// The code CVODES knows a sensitivity method by.
pub open spec fn sens_method_code(method: SensMethod) -> i32 {
    match method {
        SensMethod::Simultaneous => CV_SIMULTANEOUS,
        SensMethod::Staggered => CV_STAGGERED,
    }
}

impl SensMethod {
    /// The code that `CVodeSensInit` takes for this method.
    pub fn as_c_int(self) -> (r: i32)
        ensures
            r == sens_method_code(self),
    {
        match self {
            SensMethod::Simultaneous => CV_SIMULTANEOUS,
            SensMethod::Staggered => CV_STAGGERED,
        }
    }
}

/// The two sensitivity methods have different codes.
pub proof fn law_sens_method_codes_differ()
    ensures
        sens_method_code(SensMethod::Simultaneous) != sens_method_code(SensMethod::Staggered),
{
}

/// Forward sensitivity as configured: the number of parameters, the length
/// of each initial sensitivity vector, and the method.
#[derive(Debug, PartialEq, Eq)]
pub struct ForwardSensitivity {
    pub num_params: usize,
    pub s0_lens: Vec<usize>,
    pub method: SensMethod,
}

/// What creating a CVODES solver decides on.
#[derive(Debug, PartialEq, Eq)]
pub struct CvodesOptions {
    /// The number of equations: the length of `y0`.
    pub neq: usize,
    pub atol: AtolMode,
    pub sensitivity: Option<ForwardSensitivity>,
}

/// Forward sensitivity that fits `neq` equations: one initial sensitivity
/// per parameter, each with one value per equation.
pub open spec fn sensitivity_fits(num_params: usize, s0_lens: Seq<usize>, neq: usize) -> bool {
    &&& s0_lens.len() == num_params
    &&& forall|i: int| 0 <= i < s0_lens.len() ==> #[trigger] s0_lens[i] == neq
}

impl CvodesOptions {
    /// The options a solver can be created from: a tolerance vector, if any,
    /// has one value per equation, and forward sensitivity, if configured,
    /// fits the equations.
    pub open spec fn wf(&self) -> bool {
        &&& atol_fits(self.atol, self.neq)
        &&& match self.sensitivity {
            Some(fs) => sensitivity_fits(fs.num_params, fs.s0_lens@, self.neq),
            None => true,
        }
    }
}

/// One new vector for each initial sensitivity, of its length.
pub open spec fn sens_vector_calls(s0_lens: Seq<usize>) -> Seq<SundialsCall> {
    s0_lens.map(|i: int, len: usize| SundialsCall::NewVector { len, role: VectorRole::Sensitivity { index: i as usize } })
}

/// The calls that set up forward sensitivity, when it is configured.
pub open spec fn cvodes_sensitivity_calls(sens: Option<ForwardSensitivity>) -> Seq<SundialsCall> {
    match sens {
        None => Seq::empty(),
        Some(fs) => sens_vector_calls(fs.s0_lens@) + seq![
            SundialsCall::SensInit { num_params: fs.num_params, method_code: sens_method_code(fs.method) },
            SundialsCall::SensEETolerances,
        ] + if fs.s0_lens.len() > 0 {
            seq![SundialsCall::SetSensParams]
        } else {
            Seq::empty()
        },
    }
}

/// The calls that create a CVODES solver: a context, BDF integrator memory,
/// the state vector, initialisation, the tolerances, the user data, the dense
/// linear solver, then the forward-sensitivity setup.
pub open spec fn cvodes_build_calls(o: CvodesOptions) -> Seq<SundialsCall> {
    seq![
        SundialsCall::CreateContext,
        SundialsCall::CreateSolverMemory { method_code: CV_BDF },
        SundialsCall::NewVector { len: o.neq, role: VectorRole::State },
        SundialsCall::Init,
    ] + tolerance_calls(o.atol) + seq![SundialsCall::SetUserData] + dense_solver_calls(o.neq)
        + cvodes_sensitivity_calls(o.sensitivity)
}

/// CVODES creates its integrator memory for BDF, whatever else is configured.
pub proof fn law_cvodes_uses_bdf(o: CvodesOptions)
    ensures
        cvodes_build_calls(o)[1] == (SundialsCall::CreateSolverMemory { method_code: CV_BDF }),
{
}

/// Without forward sensitivity, creating a CVODES solver makes no
/// sensitivity call.
pub proof fn law_cvodes_without_sensitivity(o: CvodesOptions)
    requires
        o.sensitivity is None,
    ensures
        forall|i: int| 0 <= i < cvodes_build_calls(o).len() ==> !(#[trigger] cvodes_build_calls(o)[i] is SensInit)
            && !(cvodes_build_calls(o)[i] is SensEETolerances) && !(cvodes_build_calls(o)[i] is SetSensParams),
{
    let c = cvodes_build_calls(o);
    assert forall|i: int| 0 <= i < c.len() implies !(#[trigger] c[i] is SensInit) && !(c[i] is SensEETolerances)
        && !(c[i] is SetSensParams) by {}
}

/// Creating a CVODES solver from fitting options makes its tolerance vector,
/// if any, with one value per equation, and exactly one sensitivity vector per
/// parameter, each of `neq` values, the `i`-th for parameter `i`.
pub proof fn law_cvodes_vectors_fit(o: CvodesOptions)
    requires
        o.wf(),
    ensures
        o.atol is Vector ==> tolerance_calls(o.atol)[0] == (SundialsCall::NewVector {
            len: o.neq,
            role: VectorRole::AbsoluteTolerance,
        }),
        o.sensitivity is None ==> o.spec_num_sens() == 0,
        o.sensitivity is Some ==> {
            let fs = o.sensitivity.unwrap();
            &&& o.spec_num_sens() == fs.num_params
            &&& sens_vector_calls(fs.s0_lens@).len() == fs.num_params
            &&& forall|i: int|
                0 <= i < fs.num_params ==> #[trigger] sens_vector_calls(fs.s0_lens@)[i] == (SundialsCall::NewVector {
                    len: o.neq,
                    role: VectorRole::Sensitivity { index: i as usize },
                })
        },
{
}

pub fn push_sens_vector_calls(v: &mut Vec<SundialsCall>, s0_lens: &Vec<usize>)
    ensures
        final(v)@ == old(v)@ + sens_vector_calls(s0_lens@),
{
    let mut i: usize = 0;
    while i < s0_lens.len()
        invariant
            i <= s0_lens.len(),
            v@ == old(v)@ + sens_vector_calls(s0_lens@.take(i as int)),
        decreases s0_lens.len() - i,
    {
        v.push(SundialsCall::NewVector { len: s0_lens[i], role: VectorRole::Sensitivity { index: i } });
        assert(sens_vector_calls(s0_lens@.take(i + 1)) =~= sens_vector_calls(s0_lens@.take(i as int)).push(
            SundialsCall::NewVector { len: s0_lens@[i as int], role: VectorRole::Sensitivity { index: i } },
        ));
        i = i + 1;
    }
    assert(s0_lens@.take(s0_lens.len() as int) =~= s0_lens@);
}

impl CvodesOptions {
    /// The defaults: a scalar absolute tolerance and no sensitivity.
    pub fn new(neq: usize) -> (r: CvodesOptions)
        ensures
            r == (CvodesOptions { neq, atol: AtolMode::Scalar, sensitivity: None }),
            r.wf(),
    {
        CvodesOptions { neq, atol: AtolMode::Scalar, sensitivity: None }
    }

    /// One absolute tolerance for all components.
    pub fn atol(self) -> (r: CvodesOptions)
        ensures
            r == (CvodesOptions { atol: AtolMode::Scalar, ..self }),
    {
        CvodesOptions { atol: AtolMode::Scalar, ..self }
    }

    /// Per-component absolute tolerances, one per equation.
    pub fn atol_vec(self, len: usize) -> (r: CvodesOptions)
        requires
            len == self.neq,
        ensures
            r == (CvodesOptions { atol: AtolMode::Vector { len }, ..self }),
    {
        CvodesOptions { atol: AtolMode::Vector { len }, ..self }
    }

    /// Forward sensitivity with respect to `num_params` parameters, starting
    /// from one initial sensitivity per parameter, each of `neq` values.
    pub fn with_forward_sensitivity(self, num_params: usize, s0_lens: Vec<usize>, method: SensMethod) -> (r:
        CvodesOptions)
        requires
            sensitivity_fits(num_params, s0_lens@, self.neq),
        ensures
            r == (CvodesOptions {
                sensitivity: Some(ForwardSensitivity { num_params, s0_lens, method }),
                ..self
            }),
    {
        CvodesOptions { sensitivity: Some(ForwardSensitivity { num_params, s0_lens, method }), ..self }
    }

    /// The number of sensitivity vectors the solver holds.
    pub open spec fn spec_num_sens(&self) -> nat {
        match self.sensitivity {
            Some(fs) => fs.s0_lens.len() as nat,
            None => 0,
        }
    }

    /// The number of sensitivity vectors the solver holds: one per initial
    /// sensitivity when sensitivity is configured, none otherwise.
    pub fn num_sens(&self) -> (r: usize)
        ensures
            r == self.spec_num_sens(),
    {
        match &self.sensitivity {
            Some(fs) => fs.s0_lens.len(),
            None => 0,
        }
    }

    /// The calls that create the solver, in order.
    pub fn build_calls(&self) -> (r: Vec<SundialsCall>)
        requires
            self.wf(),
        ensures
            r@ == cvodes_build_calls(*self),
    {
        let mut v: Vec<SundialsCall> = Vec::new();
        v.push(SundialsCall::CreateContext);
        v.push(SundialsCall::CreateSolverMemory { method_code: CV_BDF });
        v.push(SundialsCall::NewVector { len: self.neq, role: VectorRole::State });
        v.push(SundialsCall::Init);
        push_tolerance_calls(&mut v, self.atol);
        v.push(SundialsCall::SetUserData);
        push_dense_solver_calls(&mut v, self.neq);
        let ghost before = v@;
        match &self.sensitivity {
            None => {},
            Some(fs) => {
                push_sens_vector_calls(&mut v, &fs.s0_lens);
                v.push(SundialsCall::SensInit { num_params: fs.num_params, method_code: fs.method.as_c_int() });
                v.push(SundialsCall::SensEETolerances);
                if fs.s0_lens.len() > 0 {
                    v.push(SundialsCall::SetSensParams);
                }
            },
        }
        assert(v@ =~= before + cvodes_sensitivity_calls(self.sensitivity));
        assert(v@ =~= cvodes_build_calls(*self));
        v
    }
}

} // verus!
