//! The calls behind the operations of a created solver: stepping,
//! reinitialising, correcting initial conditions, reading statistics and
//! reading sensitivities.

use vstd::prelude::*;

use crate::calls::{
    call_failure, spec_function_name, spec_solver_name, CallOutcome, SolverKind, SundialsCall, CV_NORMAL,
    IDA_NORMAL, IDA_YA_YDP_INIT,
};
use crate::error::{flag_result, SundialsError};
use crate::cvode::{cvode_build_calls, CvodeOptions};
use crate::cvodes::{cvodes_build_calls, CvodesOptions};
use crate::ida::{ida_build_calls, IdaOptions};
use crate::idas::{idas_build_calls, IdasOptions};
use crate::sequence::sequence_result;

verus! {

/// The task a solver is stepped with: integrate up to the output time.
pub open spec fn normal_task(kind: SolverKind) -> i32 {
    match kind {
        SolverKind::Cvode | SolverKind::Cvodes => CV_NORMAL,
        SolverKind::Ida | SolverKind::Idas => IDA_NORMAL,
    }
}

/// Stepping to an output time is one call of `CVode` / `IDASolve`.
pub open spec fn spec_step_calls(kind: SolverKind) -> Seq<SundialsCall> {
    seq![SundialsCall::Solve { task: normal_task(kind) }]
}

/// Reinitialising at a new initial condition is one call of
/// `CVodeReInit` / `IDAReInit`.
pub open spec fn spec_reinit_calls() -> Seq<SundialsCall> {
    seq![SundialsCall::ReInit]
}

/// Correcting the initial conditions is one call of `IDACalcIC` that corrects
/// the algebraic components of `y` and the differential components of `y'`.
pub open spec fn spec_calc_ic_calls() -> Seq<SundialsCall> {
    seq![SundialsCall::CalcIC { icopt: IDA_YA_YDP_INIT }]
}

/// The statistics are read in this order: steps, right-hand side
/// evaluations, error test failures, last order, current time.
pub open spec fn spec_stats_calls() -> Seq<SundialsCall> {
    seq![
        SundialsCall::GetNumSteps,
        SundialsCall::GetNumRhsEvals,
        SundialsCall::GetNumErrTestFails,
        SundialsCall::GetLastOrder,
        SundialsCall::GetCurrentTime,
    ]
}

/// Reading the sensitivities makes no call when the solver holds no
/// sensitivity vector, and one call otherwise.
pub open spec fn spec_sensitivity_calls(num_sens: nat) -> Seq<SundialsCall> {
    if num_sens == 0 {
        Seq::empty()
    } else {
        seq![SundialsCall::GetSens]
    }
}

pub fn step_calls(kind: SolverKind) -> (r: Vec<SundialsCall>)
    ensures
        r@ == spec_step_calls(kind),
{
    let task = match kind {
        SolverKind::Cvode | SolverKind::Cvodes => CV_NORMAL,
        SolverKind::Ida | SolverKind::Idas => IDA_NORMAL,
    };
    let mut v: Vec<SundialsCall> = Vec::new();
    v.push(SundialsCall::Solve { task });
    assert(v@ =~= spec_step_calls(kind));
    v
}

pub fn reinit_calls() -> (r: Vec<SundialsCall>)
    ensures
        r@ == spec_reinit_calls(),
{
    let mut v: Vec<SundialsCall> = Vec::new();
    v.push(SundialsCall::ReInit);
    assert(v@ =~= spec_reinit_calls());
    v
}

pub fn calc_ic_calls() -> (r: Vec<SundialsCall>)
    ensures
        r@ == spec_calc_ic_calls(),
{
    let mut v: Vec<SundialsCall> = Vec::new();
    v.push(SundialsCall::CalcIC { icopt: IDA_YA_YDP_INIT });
    assert(v@ =~= spec_calc_ic_calls());
    v
}

pub fn stats_calls() -> (r: Vec<SundialsCall>)
    ensures
        r@ == spec_stats_calls(),
{
    let mut v: Vec<SundialsCall> = Vec::new();
    v.push(SundialsCall::GetNumSteps);
    v.push(SundialsCall::GetNumRhsEvals);
    v.push(SundialsCall::GetNumErrTestFails);
    v.push(SundialsCall::GetLastOrder);
    v.push(SundialsCall::GetCurrentTime);
    assert(v@ =~= spec_stats_calls());
    v
}

pub fn sensitivity_calls(num_sens: usize) -> (r: Vec<SundialsCall>)
    ensures
        r@ == spec_sensitivity_calls(num_sens as nat),
{
    let mut v: Vec<SundialsCall> = Vec::new();
    if num_sens > 0 {
        v.push(SundialsCall::GetSens);
    }
    assert(v@ =~= spec_sensitivity_calls(num_sens as nat));
    v
}

/// A step succeeds exactly when the integrator returns a non-negative flag;
/// otherwise it fails with that flag, naming the solver and `CVode` or
/// `IDASolve`.
pub proof fn law_step_follows_flag(kind: SolverKind, flag: i32)
    ensures
        sequence_result(kind, spec_step_calls(kind), seq![CallOutcome { code: flag, null: false }]) == Some(
            flag_result(flag, spec_solver_name(kind), spec_function_name(kind, spec_step_calls(kind)[0])),
        ),
{
    let c = spec_step_calls(kind);
    let o = seq![CallOutcome { code: flag, null: false }];
    assert(c.drop_first().len() == 0);
    assert(sequence_result(kind, c.drop_first(), o.drop_first()) == Some(Ok::<(), SundialsError>(())));
    assert(o[0] == CallOutcome { code: flag, null: false });
}

/// Without sensitivity vectors, reading the sensitivities succeeds at once.
pub proof fn law_no_sensitivities_succeeds(kind: SolverKind, outcomes: Seq<CallOutcome>)
    ensures
        sequence_result(kind, spec_sensitivity_calls(0), outcomes) == Some(Ok::<(), SundialsError>(())),
{
}

/// Reading the statistics fails exactly when one of the five readings
/// returns a negative flag.
pub proof fn law_stats_fail_on_negative_flag(kind: SolverKind, flags: Seq<i32>)
    requires
        flags.len() == 5,
    ensures
        sequence_result(kind, spec_stats_calls(), flags.map_values(|f: i32| CallOutcome { code: f, null: false }))
            == Some(Ok::<(), SundialsError>(())) <==> forall|i: int| 0 <= i < 5 ==> #[trigger] flags[i] >= 0,
{
    let c = spec_stats_calls();
    let o = flags.map_values(|f: i32| CallOutcome { code: f, null: false });
    crate::sequence::law_success_iff_every_call_succeeds(kind, c, o);
    assert forall|i: int| 0 <= i < 5 implies (#[trigger] call_failure(kind, c[i], o[i]) is None) == (flags[i] >= 0) by {
        assert(o[i] == CallOutcome { code: flags[i], null: false });
    }
    if forall|i: int| 0 <= i < 5 ==> #[trigger] flags[i] >= 0 {
        assert forall|i: int| 0 <= i < c.len() implies (#[trigger] call_failure(kind, c[i], o[i])) is None by {
            assert(flags[i] >= 0);
        }
    }
    if forall|i: int| 0 <= i < c.len() ==> (#[trigger] call_failure(kind, c[i], o[i])) is None {
        assert forall|i: int| 0 <= i < 5 implies #[trigger] flags[i] >= 0 by {
            assert(call_failure(kind, c[i], o[i]) is None);
        }
    }
}

/// Creating any of the four solvers first makes the SUNDIALS context, then
/// the integrator memory.
pub proof fn law_every_creation_starts_with_context(
    a: CvodeOptions,
    b: CvodesOptions,
    c: IdaOptions,
    d: IdasOptions,
)
    ensures
        cvode_build_calls(a)[0] == SundialsCall::CreateContext,
        cvodes_build_calls(b)[0] == SundialsCall::CreateContext,
        ida_build_calls(c)[0] == SundialsCall::CreateContext,
        idas_build_calls(d)[0] == SundialsCall::CreateContext,
        cvode_build_calls(a)[1] is CreateSolverMemory,
        cvodes_build_calls(b)[1] is CreateSolverMemory,
        ida_build_calls(c)[1] == SundialsCall::CreateIdaMemory,
        idas_build_calls(d)[1] == SundialsCall::CreateIdaMemory,
{
}

/// An IDAS solver created without parameters holds no sensitivity vector,
/// whatever initial sensitivities were given; reading its sensitivities makes
/// no call and succeeds.
pub proof fn law_idas_without_parameters_has_no_sensitivities(o: IdasOptions, outcomes: Seq<CallOutcome>)
    requires
        o.num_params == 0,
    ensures
        o.spec_num_sens() == 0,
        spec_sensitivity_calls(o.spec_num_sens()) == Seq::<SundialsCall>::empty(),
        sequence_result(SolverKind::Idas, spec_sensitivity_calls(o.spec_num_sens()), outcomes) == Some(
            Ok::<(), SundialsError>(()),
        ),
{
}

} // verus!
