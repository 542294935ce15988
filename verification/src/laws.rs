//! What each creation and operation plan must do, stated over the plans'
//! contents with the SUNDIALS option codes and function names written out.

use vstd::prelude::*;

use crate::calls::{
    call_failure, spec_callback_flag, spec_create_name, spec_function_name, spec_initial_values, spec_solver_name,
    CallOutcome, SolverKind, SundialsCall, VectorRole,
};
use crate::error::{flag_result, SundialsError};
use crate::cvode::{cvode_build_calls, AtolMode, CvodeOptions, Method};
use crate::cvodes::{cvodes_build_calls, CvodesOptions, SensMethod};
use crate::ida::{ida_build_calls, IdaOptions};
use crate::idas::{idas_build_calls, idas_sens_vector_calls, law_idas_sens_vector_count, IdasOptions};
use crate::operations::{
    spec_calc_ic_calls, spec_reinit_calls, spec_sensitivity_calls, spec_stats_calls, spec_step_calls,
};

verus! {

/// Every vector the IDAS sensitivity setup makes is a new vector.
proof fn lemma_idas_sens_vectors_are_vectors(s0_lens: Seq<usize>, neq: usize)
    ensures
        forall|i: int|
            0 <= i < idas_sens_vector_calls(s0_lens, neq).len() ==> (#[trigger] idas_sens_vector_calls(
                s0_lens,
                neq,
            )[i]) is NewVector,
    decreases s0_lens.len(),
{
    if s0_lens.len() > 0 {
        lemma_idas_sens_vector_are_vectors_step(s0_lens, neq);
    }
}

proof fn lemma_idas_sens_vector_are_vectors_step(s0_lens: Seq<usize>, neq: usize)
    requires
        s0_lens.len() > 0,
    ensures
        forall|i: int|
            0 <= i < idas_sens_vector_calls(s0_lens, neq).len() ==> (#[trigger] idas_sens_vector_calls(
                s0_lens,
                neq,
            )[i]) is NewVector,
    decreases s0_lens.len(), 0int,
{
    let prefix = s0_lens.drop_last();
    lemma_idas_sens_vectors_are_vectors(prefix, neq);
    let c = idas_sens_vector_calls(s0_lens, neq);
    let p = idas_sens_vector_calls(prefix, neq);
    assert forall|i: int| 0 <= i < c.len() implies (#[trigger] c[i]) is NewVector by {
        if i < p.len() {
            assert(c[i] == p[i]);
        }
    }
}

/// Creating a CVODE solver: a context, then integrator memory for the chosen
/// method (Adams is code 1, BDF code 2), then the state vector of `neq`
/// values, initialisation, the tolerances (a scalar, or a vector of `neq`
/// values), and last the dense `neq × neq` matrix and linear solver.
pub proof fn law_cvode_creation(o: CvodeOptions)
    requires
        o.wf(),
    ensures
        ({
            let c = cvode_build_calls(o);
            &&& c[0] == SundialsCall::CreateContext
            &&& c[1] == SundialsCall::CreateSolverMemory {
                method_code: match o.method {
                    Method::Adams => 1i32,
                    Method::BDF => 2i32,
                },
            }
            &&& c[2] == SundialsCall::NewVector { len: o.neq, role: VectorRole::State }
            &&& c[3] == SundialsCall::Init
            &&& (o.atol is Scalar ==> c[4] == SundialsCall::ScalarTolerances)
            &&& (o.atol is Vector ==> c[4] == SundialsCall::NewVector {
                len: o.neq,
                role: VectorRole::AbsoluteTolerance,
            } && c[5] == SundialsCall::VectorTolerances)
            &&& c[if o.atol is Scalar { 5int } else { 6int }] == SundialsCall::SetUserData
            &&& c.len() >= 3
            &&& c[c.len() - 3] == SundialsCall::NewDenseMatrix { rows: o.neq, cols: o.neq }
            &&& c[c.len() - 2] == SundialsCall::NewDenseLinearSolver
            &&& c[c.len() - 1] == SundialsCall::SetLinearSolver
        }),
{
}

/// A CVODE step limit, whatever the method, is handed to the solver exactly
/// when one was set: the plan holds `SetMaxNumSteps(n)` for a limit `n`, and
/// no `SetMaxNumSteps` at all without one.
pub proof fn law_cvode_step_limit(o: CvodeOptions)
    ensures
        o.max_steps matches Some(n) ==> exists|i: int|
            0 <= i < cvode_build_calls(o).len() && #[trigger] cvode_build_calls(o)[i]
                == (SundialsCall::SetMaxNumSteps { max_steps: n }),
        o.max_steps is None ==> forall|i: int|
            0 <= i < cvode_build_calls(o).len() ==> !(#[trigger] cvode_build_calls(o)[i] is SetMaxNumSteps),
{
    let c = cvode_build_calls(o);
    if let Some(n) = o.max_steps {
        let head = seq![
            SundialsCall::CreateContext,
            SundialsCall::CreateSolverMemory { method_code: crate::cvode::method_code(o.method) },
            SundialsCall::NewVector { len: o.neq, role: VectorRole::State },
            SundialsCall::Init,
        ] + crate::cvode::tolerance_calls(o.atol) + seq![SundialsCall::SetUserData];
        let with_limit = head + seq![SundialsCall::SetMaxNumSteps { max_steps: n }];
        assert(c == with_limit + crate::cvode::dense_solver_calls(o.neq));
        let i = head.len() as int;
        assert(with_limit[i] == SundialsCall::SetMaxNumSteps { max_steps: n });
        assert(c[i] == SundialsCall::SetMaxNumSteps { max_steps: n });
    }
}

/// Creating a CVODES solver with at least one parameter ends by initialising
/// the sensitivity module for those parameters with the chosen method
/// (simultaneous is code 1, staggered code 2), selecting estimated
/// sensitivity tolerances, and handing the parameter array to the solver;
/// one sensitivity vector of `neq` values is made for each parameter, and
/// the integrator is always BDF (code 2).
pub proof fn law_cvodes_sensitivity_setup(o: CvodesOptions)
    requires
        o.wf(),
        o.sensitivity is Some,
        o.sensitivity.unwrap().num_params > 0,
    ensures
        ({
            let c = cvodes_build_calls(o);
            let fs = o.sensitivity.unwrap();
            &&& c.len() >= 3
            &&& c[1] == SundialsCall::CreateSolverMemory { method_code: 2 }
            &&& c[c.len() - 3] == SundialsCall::SensInit {
                num_params: fs.num_params,
                method_code: match fs.method {
                    SensMethod::Simultaneous => 1i32,
                    SensMethod::Staggered => 2i32,
                },
            }
            &&& c[c.len() - 2] == SundialsCall::SensEETolerances
            &&& c[c.len() - 1] == SundialsCall::SetSensParams
            &&& c.len() >= 3 + fs.num_params
            &&& c.subrange(c.len() - 3 - fs.num_params, c.len() - 3) == Seq::new(
                fs.num_params as nat,
                |k: int| SundialsCall::NewVector { len: o.neq, role: VectorRole::Sensitivity { index: k as usize } },
            )
        }),
{
    let c = cvodes_build_calls(o);
    let fs = o.sensitivity.unwrap();
    let n = fs.num_params as int;
    let expected = Seq::new(
        fs.num_params as nat,
        |k: int| SundialsCall::NewVector { len: o.neq, role: VectorRole::Sensitivity { index: k as usize } },
    );
    assert forall|k: int| 0 <= k < n implies #[trigger] c.subrange(c.len() - 3 - n, c.len() - 3)[k]
        == expected[k] by {
        assert(fs.s0_lens@[k] == o.neq);
    }
    assert(c.subrange(c.len() - 3 - n, c.len() - 3) =~= expected);
}

/// Creating an IDA solver: a context, integrator memory, the vectors `y` and
/// `y'` of `neq` values, initialisation, scalar tolerances, user data, the
/// dense linear solver, then the step limit exactly when one was set.
pub proof fn law_ida_creation(o: IdaOptions)
    ensures
        ({
            let c = ida_build_calls(o);
            &&& c[0] == SundialsCall::CreateContext
            &&& c[1] == SundialsCall::CreateIdaMemory
            &&& c[2] == SundialsCall::NewVector { len: o.neq, role: VectorRole::State }
            &&& c[3] == SundialsCall::NewVector { len: o.neq, role: VectorRole::StateDerivative }
            &&& c[4] == SundialsCall::Init
            &&& c[5] == SundialsCall::ScalarTolerances
            &&& c[6] == SundialsCall::SetUserData
            &&& c[7] == SundialsCall::NewDenseMatrix { rows: o.neq, cols: o.neq }
            &&& c[8] == SundialsCall::NewDenseLinearSolver
            &&& c[9] == SundialsCall::SetLinearSolver
            &&& (o.max_steps matches Some(n) ==> c.len() == 11 && c[10] == SundialsCall::SetMaxNumSteps {
                max_steps: n,
            })
            &&& (o.max_steps is None ==> c.len() == 10)
        }),
{
}

/// An IDAS step limit, with or without parameters, is handed to the solver
/// right after the linear solver exactly when one was set; without one the
/// plan holds no `SetMaxNumSteps` at all.
pub proof fn law_idas_step_limit(o: IdasOptions)
    ensures
        ({
            let c = idas_build_calls(o);
            &&& c.len() >= 10
            &&& c[9] == SundialsCall::SetLinearSolver
            &&& (o.max_steps matches Some(n) ==> c[10] == SundialsCall::SetMaxNumSteps { max_steps: n })
            &&& (o.max_steps is None ==> forall|i: int| 0 <= i < c.len() ==> !(#[trigger] c[i] is SetMaxNumSteps))
        }),
{
    let c = idas_build_calls(o);
    lemma_idas_sens_vectors_are_vectors(o.s0_lens@, o.neq);
    if o.max_steps is None {
        let s = idas_sens_vector_calls(o.s0_lens@, o.neq);
        assert forall|i: int| 0 <= i < c.len() implies !(#[trigger] c[i] is SetMaxNumSteps) by {
            if o.num_params > 0 && 10 <= i < 10 + s.len() {
                assert(c[i] == s[i - 10]);
            }
        }
    }
}

/// Creating an IDAS solver with at least one parameter ends by initialising
/// the sensitivity module for those parameters with the simultaneous
/// corrector (code 1), selecting estimated sensitivity tolerances and handing
/// the parameter array to the solver.
pub proof fn law_idas_sensitivity_setup(o: IdasOptions)
    requires
        o.wf(),
        o.num_params > 0,
    ensures
        ({
            let c = idas_build_calls(o);
            &&& c.len() >= 3
            &&& c[c.len() - 3] == SundialsCall::SensInit { num_params: o.num_params, method_code: 1 }
            &&& c[c.len() - 2] == SundialsCall::SensEETolerances
            &&& c[c.len() - 1] == SundialsCall::SetSensParams
        }),
{
    law_idas_sens_vector_count(o.s0_lens@, o.neq);
}

/// Every solver steps in normal mode (`CV_NORMAL` = `IDA_NORMAL` = 1):
/// integrate up to the output time, with a single call.
pub proof fn law_step_is_normal_mode(kind: SolverKind)
    ensures
        spec_step_calls(kind) == seq![SundialsCall::Solve { task: 1 }],
{
}

/// Reinitialising is one `ReInit` call; correcting initial conditions is one
/// `IDACalcIC` call with `IDA_YA_YDP_INIT` (code 1).
pub proof fn law_reinit_and_calc_ic()
    ensures
        spec_reinit_calls() == seq![SundialsCall::ReInit],
        spec_calc_ic_calls() == seq![SundialsCall::CalcIC { icopt: 1 }],
{
}

/// The statistics read each of the steps, right-hand side evaluations, error
/// test failures, last order and current time exactly once, the steps first.
pub proof fn law_stats_read_each_once()
    ensures
        ({
            let c = spec_stats_calls();
            &&& c.len() == 5
            &&& c[0] == SundialsCall::GetNumSteps
            &&& c.contains(SundialsCall::GetNumSteps)
            &&& c.contains(SundialsCall::GetNumRhsEvals)
            &&& c.contains(SundialsCall::GetNumErrTestFails)
            &&& c.contains(SundialsCall::GetLastOrder)
            &&& c.contains(SundialsCall::GetCurrentTime)
            &&& forall|i: int, j: int| 0 <= i < j < 5 ==> c[i] != c[j]
        }),
{
    let c = spec_stats_calls();
    assert(c[0] == SundialsCall::GetNumSteps);
    assert(c[1] == SundialsCall::GetNumRhsEvals);
    assert(c[2] == SundialsCall::GetNumErrTestFails);
    assert(c[3] == SundialsCall::GetLastOrder);
    assert(c[4] == SundialsCall::GetCurrentTime);
}

/// Reading sensitivities makes one `GetSens` call when there is at least
/// one sensitivity vector, and none otherwise.
pub proof fn law_sensitivity_reading(num_sens: nat)
    ensures
        num_sens > 0 ==> spec_sensitivity_calls(num_sens) == seq![SundialsCall::GetSens],
        num_sens == 0 ==> spec_sensitivity_calls(num_sens).len() == 0,
{
}

/// A SUNDIALS flag means success exactly when it is not negative; a negative
/// flag is reported with the solver, the function and the flag itself.
pub proof fn law_flag_meaning(code: i32, solver: &'static str, function: &'static str)
    ensures
        flag_result(code, solver, function) is Ok <==> code >= 0,
        code < 0 ==> flag_result(code, solver, function) == Err::<(), SundialsError>(
            SundialsError::ReturnCode { solver, function, code },
        ),
{
}

/// A user callback's `Ok(())` reaches SUNDIALS as 0 and its `Err(flag)` as
/// that flag.
pub proof fn law_callback_flag(flag: i32)
    ensures
        spec_callback_flag(Ok(())) == 0,
        spec_callback_flag(Err(flag)) == flag,
{
}

/// The names the solvers report themselves by.
pub proof fn law_solver_names()
    ensures
        spec_solver_name(SolverKind::Cvode) == "CVODE",
        spec_solver_name(SolverKind::Cvodes) == "CVODES",
        spec_solver_name(SolverKind::Ida) == "IDA",
        spec_solver_name(SolverKind::Idas) == "IDAS",
        spec_create_name(SolverKind::Cvode) == "CVodeCreate",
        spec_create_name(SolverKind::Cvodes) == "CVodeCreate (CVODES)",
        spec_create_name(SolverKind::Ida) == "IDACreate",
        spec_create_name(SolverKind::Idas) == "IDACreate (IDAS)",
{
}

/// The SUNDIALS function each flag-returning call reports failures under:
/// `CVode*` for CVODE and CVODES, `IDA*` for IDA and IDAS.
pub proof fn law_function_names(kind: SolverKind)
    ensures
        kind == SolverKind::Cvode || kind == SolverKind::Cvodes ==> {
            &&& spec_function_name(kind, SundialsCall::Init) == "CVodeInit"
            &&& spec_function_name(kind, SundialsCall::ScalarTolerances) == "CVodeSStolerances"
            &&& spec_function_name(kind, SundialsCall::VectorTolerances) == "CVodeSVtolerances"
            &&& spec_function_name(kind, SundialsCall::SetUserData) == "CVodeSetUserData"
            &&& forall|n: i64| #[trigger] spec_function_name(kind, SundialsCall::SetMaxNumSteps { max_steps: n })
                == "CVodeSetMaxNumSteps"
            &&& spec_function_name(kind, SundialsCall::SetLinearSolver) == "CVodeSetLinearSolver"
            &&& forall|n: usize, m: i32| #[trigger] spec_function_name(kind, SundialsCall::SensInit {
                num_params: n,
                method_code: m,
            }) == "CVodeSensInit"
            &&& spec_function_name(kind, SundialsCall::SensEETolerances) == "CVodeSensEEtolerances"
            &&& spec_function_name(kind, SundialsCall::SetSensParams) == "CVodeSetSensParams"
            &&& forall|t: i32| #[trigger] spec_function_name(kind, SundialsCall::Solve { task: t }) == "CVode"
            &&& spec_function_name(kind, SundialsCall::ReInit) == "CVodeReInit"
            &&& spec_function_name(kind, SundialsCall::GetSens) == "CVodeGetSens"
            &&& spec_function_name(kind, SundialsCall::GetNumSteps) == "CVodeGetNumSteps"
            &&& spec_function_name(kind, SundialsCall::GetNumRhsEvals) == "CVodeGetNumRhsEvals"
            &&& spec_function_name(kind, SundialsCall::GetNumErrTestFails) == "CVodeGetNumErrTestFails"
            &&& spec_function_name(kind, SundialsCall::GetLastOrder) == "CVodeGetLastOrder"
            &&& spec_function_name(kind, SundialsCall::GetCurrentTime) == "CVodeGetCurrentTime"
        },
        kind == SolverKind::Ida || kind == SolverKind::Idas ==> {
            &&& spec_function_name(kind, SundialsCall::Init) == "IDAInit"
            &&& spec_function_name(kind, SundialsCall::ScalarTolerances) == "IDASStolerances"
            &&& spec_function_name(kind, SundialsCall::SetUserData) == "IDASetUserData"
            &&& forall|n: i64| #[trigger] spec_function_name(kind, SundialsCall::SetMaxNumSteps { max_steps: n })
                == "IDASetMaxNumSteps"
            &&& spec_function_name(kind, SundialsCall::SetLinearSolver) == "IDASetLinearSolver"
            &&& forall|n: usize, m: i32| #[trigger] spec_function_name(kind, SundialsCall::SensInit {
                num_params: n,
                method_code: m,
            }) == "IDASensInit"
            &&& spec_function_name(kind, SundialsCall::SensEETolerances) == "IDASensEEtolerances"
            &&& spec_function_name(kind, SundialsCall::SetSensParams) == "IDASetSensParams"
            &&& forall|t: i32| #[trigger] spec_function_name(kind, SundialsCall::Solve { task: t }) == "IDASolve"
            &&& spec_function_name(kind, SundialsCall::ReInit) == "IDAReInit"
            &&& forall|c: i32| #[trigger] spec_function_name(kind, SundialsCall::CalcIC { icopt: c }) == "IDACalcIC"
            &&& spec_function_name(kind, SundialsCall::GetSens) == "IDAGetSens"
        },
{
}

/// How each call fails: the context when its flag is non-zero or it is
/// missing; the integrator memory, vectors, matrix and linear solver when
/// they are missing, each with its own error; every other call exactly when
/// its flag is negative, reported under the solver's and the function's name.
pub proof fn law_failure_rules(kind: SolverKind, call: SundialsCall, outcome: CallOutcome)
    ensures
        call == SundialsCall::CreateContext ==> (call_failure(kind, call, outcome) is Some <==> (outcome.code != 0
            || outcome.null)) && (call_failure(kind, call, outcome) is Some ==> call_failure(kind, call, outcome)
            == Some(SundialsError::Memory("SUNContext_Create"))),
        (call is CreateSolverMemory || call is CreateIdaMemory) ==> call_failure(kind, call, outcome) == (if outcome.null {
            Some(SundialsError::Memory(spec_create_name(kind)))
        } else {
            None
        }),
        call is NewVector ==> call_failure(kind, call, outcome) == (if outcome.null {
            Some(SundialsError::NVectorCreate)
        } else {
            None
        }),
        call is NewDenseMatrix ==> call_failure(kind, call, outcome) == (if outcome.null {
            Some(SundialsError::MatrixCreate)
        } else {
            None
        }),
        call is NewDenseLinearSolver ==> call_failure(kind, call, outcome) == (if outcome.null {
            Some(SundialsError::LinearSolverCreate)
        } else {
            None
        }),
        !(call is CreateContext || call is CreateSolverMemory || call is CreateIdaMemory || call is NewVector
            || call is NewDenseMatrix || call is NewDenseLinearSolver) ==> call_failure(kind, call, outcome) == (
        if outcome.code >= 0 {
            None
        } else {
            Some(
                SundialsError::ReturnCode {
                    solver: spec_solver_name(kind),
                    function: spec_function_name(kind, call),
                    code: outcome.code,
                },
            )
        }),
{
}

/// Each new vector starts from the input its role names: `y0`, `yp0`, the
/// absolute tolerances, the matching initial sensitivity; the derivative of a
/// sensitivity starts at zero.
pub proof fn law_initial_values<T>(y0: &Vec<T>, yp0: &Vec<T>, atol: &Vec<T>, s0: &Vec<Vec<T>>, index: usize)
    ensures
        spec_initial_values(VectorRole::State, y0, yp0, atol, s0) == Some(y0),
        spec_initial_values(VectorRole::StateDerivative, y0, yp0, atol, s0) == Some(yp0),
        spec_initial_values(VectorRole::AbsoluteTolerance, y0, yp0, atol, s0) == Some(atol),
        spec_initial_values(VectorRole::Sensitivity { index }, y0, yp0, atol, s0) == Some(&s0@[index as int]),
        spec_initial_values(VectorRole::SensitivityDerivative { index }, y0, yp0, atol, s0) is None,
{
}

/// Creating a CVODES solver: a context, BDF integrator memory (code 2), the
/// state vector of `neq` values, initialisation, the tolerances (a scalar, or
/// a vector of `neq` values), user data and the dense `neq × neq` linear
/// solver, in this order; CVODES never sets a step limit.
pub proof fn law_cvodes_creation(o: CvodesOptions)
    requires
        o.wf(),
    ensures
        ({
            let c = cvodes_build_calls(o);
            let t: int = if o.atol is Scalar { 1 } else { 2 };
            &&& c.len() >= 8 + t
            &&& c[0] == SundialsCall::CreateContext
            &&& c[1] == SundialsCall::CreateSolverMemory { method_code: 2 }
            &&& c[2] == SundialsCall::NewVector { len: o.neq, role: VectorRole::State }
            &&& c[3] == SundialsCall::Init
            &&& (o.atol is Scalar ==> c[4] == SundialsCall::ScalarTolerances)
            &&& (o.atol is Vector ==> c[4] == SundialsCall::NewVector {
                len: o.neq,
                role: VectorRole::AbsoluteTolerance,
            } && c[5] == SundialsCall::VectorTolerances)
            &&& c[4 + t] == SundialsCall::SetUserData
            &&& c[5 + t] == SundialsCall::NewDenseMatrix { rows: o.neq, cols: o.neq }
            &&& c[6 + t] == SundialsCall::NewDenseLinearSolver
            &&& c[7 + t] == SundialsCall::SetLinearSolver
            &&& forall|i: int| 0 <= i < c.len() ==> !(#[trigger] c[i] is SetMaxNumSteps)
        }),
{
}

/// Forward sensitivity with no parameters initialises the sensitivity module
/// for none and hands no parameter array to the solver.
pub proof fn law_cvodes_sensitivity_without_parameters(o: CvodesOptions)
    requires
        o.wf(),
        o.sensitivity is Some,
        o.sensitivity.unwrap().num_params == 0,
    ensures
        ({
            let c = cvodes_build_calls(o);
            let fs = o.sensitivity.unwrap();
            &&& c.len() >= 2
            &&& c[c.len() - 2] == SundialsCall::SensInit {
                num_params: 0,
                method_code: match fs.method {
                    SensMethod::Simultaneous => 1i32,
                    SensMethod::Staggered => 2i32,
                },
            }
            &&& c[c.len() - 1] == SundialsCall::SensEETolerances
            &&& forall|i: int| 0 <= i < c.len() ==> !(#[trigger] c[i] is SetSensParams)
        }),
{
    let fs = o.sensitivity.unwrap();
    assert(fs.s0_lens@.len() == 0);
    assert(crate::cvodes::sens_vector_calls(fs.s0_lens@) =~= Seq::<SundialsCall>::empty());
}

/// Creating an IDAS solver begins as IDA does, and with at least one
/// parameter makes, right after the step limit (if any), for each parameter
/// its sensitivity vector and the vector of its derivative, both of `neq`
/// values.
pub proof fn law_idas_creation(o: IdasOptions)
    requires
        o.wf(),
    ensures
        ({
            let c = idas_build_calls(o);
            let m: int = if o.max_steps is Some { 1 } else { 0 };
            let n = o.num_params as int;
            &&& c[0] == SundialsCall::CreateContext
            &&& c[1] == SundialsCall::CreateIdaMemory
            &&& c[2] == SundialsCall::NewVector { len: o.neq, role: VectorRole::State }
            &&& c[3] == SundialsCall::NewVector { len: o.neq, role: VectorRole::StateDerivative }
            &&& c[4] == SundialsCall::Init
            &&& c[5] == SundialsCall::ScalarTolerances
            &&& c[6] == SundialsCall::SetUserData
            &&& c[7] == SundialsCall::NewDenseMatrix { rows: o.neq, cols: o.neq }
            &&& c[8] == SundialsCall::NewDenseLinearSolver
            &&& c[9] == SundialsCall::SetLinearSolver
            &&& (n > 0 ==> c.len() == 10 + m + 2 * n + 3 && c.subrange(10 + m, 10 + m + 2 * n) == Seq::new(
                (2 * n) as nat,
                |k: int|
                    if k % 2 == 0 {
                        SundialsCall::NewVector { len: o.neq, role: VectorRole::Sensitivity { index: (k / 2) as usize } }
                    } else {
                        SundialsCall::NewVector {
                            len: o.neq,
                            role: VectorRole::SensitivityDerivative { index: (k / 2) as usize },
                        }
                    },
            ))
            &&& (n == 0 ==> c.len() == 10 + m)
        }),
{
    let c = idas_build_calls(o);
    let m: int = if o.max_steps is Some { 1 } else { 0 };
    let n = o.num_params as int;
    if n > 0 {
        crate::idas::law_idas_vectors_fit(o);
        let s = idas_sens_vector_calls(o.s0_lens@, o.neq);
        let expected = Seq::new(
            (2 * n) as nat,
            |k: int|
                if k % 2 == 0 {
                    SundialsCall::NewVector { len: o.neq, role: VectorRole::Sensitivity { index: (k / 2) as usize } }
                } else {
                    SundialsCall::NewVector {
                        len: o.neq,
                        role: VectorRole::SensitivityDerivative { index: (k / 2) as usize },
                    }
                },
        );
        assert forall|k: int| 0 <= k < 2 * n implies #[trigger] c.subrange(10 + m, 10 + m + 2 * n)[k]
            == expected[k] by {
            assert(c[10 + m + k] == s[k]);
            let j = k / 2;
            if k % 2 == 0 {
                assert(k == 2 * j);
                assert(s[2 * j] == SundialsCall::NewVector {
                    len: o.neq,
                    role: VectorRole::Sensitivity { index: j as usize },
                });
            } else {
                assert(k == 2 * j + 1);
                assert(s[2 * j + 1] == SundialsCall::NewVector {
                    len: o.neq,
                    role: VectorRole::SensitivityDerivative { index: j as usize },
                });
            }
        }
        assert(c.subrange(10 + m, 10 + m + 2 * n) =~= expected);
    }
}

/// The option codes SUNDIALS knows the methods by: Adams 1, BDF 2;
/// simultaneous 1, staggered 2.
pub proof fn law_option_codes()
    ensures
        crate::cvode::method_code(Method::Adams) == 1,
        crate::cvode::method_code(Method::BDF) == 2,
        crate::cvodes::sens_method_code(SensMethod::Simultaneous) == 1,
        crate::cvodes::sens_method_code(SensMethod::Staggered) == 2,
{
}

} // verus!
