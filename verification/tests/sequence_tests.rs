use sundials_rs::calls::{failure, function_name, CallOutcome, SolverKind, SundialsCall, VectorRole};
use sundials_rs::cvode::{CvodeOptions, Method};
use sundials_rs::ida::IdaOptions;
use sundials_rs::operations::{calc_ic_calls, reinit_calls, sensitivity_calls, stats_calls, step_calls};
use sundials_rs::sequence::CallSequence;
use sundials_rs::SundialsError;

/// Reports `outcome_of(call)` for each call the sequence asks for and returns
/// the calls made and the result.
fn drive(
    mut seq: CallSequence,
    mut outcome_of: impl FnMut(usize, SundialsCall) -> CallOutcome,
) -> (Vec<SundialsCall>, Result<(), SundialsError>) {
    let mut made = Vec::new();
    while let Some(call) = seq.next_call() {
        let outcome = outcome_of(made.len(), call);
        made.push(call);
        seq.report(outcome);
    }
    (made, seq.result().expect("finished"))
}

fn success(call: SundialsCall) -> CallOutcome {
    match call {
        SundialsCall::CreateContext
        | SundialsCall::CreateSolverMemory { .. }
        | SundialsCall::CreateIdaMemory
        | SundialsCall::NewVector { .. }
        | SundialsCall::NewDenseMatrix { .. }
        | SundialsCall::NewDenseLinearSolver => CallOutcome::pointer(false),
        _ => CallOutcome::flag(0),
    }
}

#[test]
fn all_calls_succeed() {
    let plan = CvodeOptions::new(Method::BDF, 3).build_calls();
    let (made, result) = drive(CallSequence::new(SolverKind::Cvode, plan.clone()), |_, c| success(c));
    assert_eq!(made, plan);
    assert_eq!(result, Ok(()));
}

#[test]
fn context_failure_stops_everything() {
    let plan = CvodeOptions::new(Method::BDF, 3).build_calls();
    let (made, result) = drive(CallSequence::new(SolverKind::Cvode, plan), |_, _| CallOutcome { code: -1, null: false });
    assert_eq!(made, vec![SundialsCall::CreateContext]);
    assert_eq!(result, Err(SundialsError::Memory("SUNContext_Create")));
}

#[test]
fn null_context_is_a_failure() {
    assert_eq!(
        failure(SolverKind::Ida, SundialsCall::CreateContext, CallOutcome { code: 0, null: true }),
        Some(SundialsError::Memory("SUNContext_Create"))
    );
}

#[test]
fn memory_failure_names_the_solver() {
    let cases = [
        (SolverKind::Cvode, SundialsCall::CreateSolverMemory { method_code: 2 }, "CVodeCreate"),
        (SolverKind::Cvodes, SundialsCall::CreateSolverMemory { method_code: 2 }, "CVodeCreate (CVODES)"),
        (SolverKind::Ida, SundialsCall::CreateIdaMemory, "IDACreate"),
        (SolverKind::Idas, SundialsCall::CreateIdaMemory, "IDACreate (IDAS)"),
    ];
    for (kind, call, name) in cases {
        assert_eq!(failure(kind, call, CallOutcome::pointer(true)), Some(SundialsError::Memory(name)));
        assert_eq!(failure(kind, call, CallOutcome::pointer(false)), None);
    }
}

#[test]
fn allocation_failures() {
    let k = SolverKind::Cvode;
    assert_eq!(
        failure(k, SundialsCall::NewVector { len: 4, role: VectorRole::State }, CallOutcome::pointer(true)),
        Some(SundialsError::NVectorCreate)
    );
    assert_eq!(
        failure(k, SundialsCall::NewDenseMatrix { rows: 4, cols: 4 }, CallOutcome::pointer(true)),
        Some(SundialsError::MatrixCreate)
    );
    assert_eq!(
        failure(k, SundialsCall::NewDenseLinearSolver, CallOutcome::pointer(true)),
        Some(SundialsError::LinearSolverCreate)
    );
}

#[test]
fn first_negative_flag_is_the_error() {
    let plan = IdaOptions::new(2, 2).build_calls();
    // IDAInit (the fifth call) fails with -22; nothing after it is made.
    let (made, result) = drive(CallSequence::new(SolverKind::Ida, plan.clone()), |i, c| {
        if i == 4 { CallOutcome::flag(-22) } else { success(c) }
    });
    assert_eq!(made, plan[..5].to_vec());
    assert_eq!(
        result,
        Err(SundialsError::ReturnCode { solver: "IDA", function: "IDAInit", code: -22 })
    );
}

#[test]
fn linear_solver_failure_in_the_middle() {
    let plan = CvodeOptions::new(Method::Adams, 2).max_steps(10).build_calls();
    let (made, result) = drive(CallSequence::new(SolverKind::Cvode, plan), |_, c| match c {
        SundialsCall::NewDenseLinearSolver => CallOutcome::pointer(true),
        other => success(other),
    });
    assert_eq!(made.last(), Some(&SundialsCall::NewDenseLinearSolver));
    assert!(!made.contains(&SundialsCall::SetLinearSolver));
    assert_eq!(result, Err(SundialsError::LinearSolverCreate));
}

#[test]
fn positive_flags_count_as_success() {
    let (_, result) = drive(CallSequence::new(SolverKind::Cvode, step_calls(SolverKind::Cvode)), |_, _| {
        CallOutcome::flag(2)
    });
    assert_eq!(result, Ok(()));
}

#[test]
fn step_failure_reports_integrator_function() {
    let (made, result) = drive(CallSequence::new(SolverKind::Idas, step_calls(SolverKind::Idas)), |_, _| {
        CallOutcome::flag(-1)
    });
    assert_eq!(made, vec![SundialsCall::Solve { task: 1 }]);
    assert_eq!(result, Err(SundialsError::ReturnCode { solver: "IDAS", function: "IDASolve", code: -1 }));
    let (_, result) = drive(CallSequence::new(SolverKind::Cvode, step_calls(SolverKind::Cvode)), |_, _| {
        CallOutcome::flag(-4)
    });
    assert_eq!(result, Err(SundialsError::ReturnCode { solver: "CVODE", function: "CVode", code: -4 }));
}

#[test]
fn stats_stop_at_first_failed_reading() {
    let (made, result) = drive(CallSequence::new(SolverKind::Cvode, stats_calls()), |i, _| {
        CallOutcome::flag(if i == 2 { -1 } else { 0 })
    });
    assert_eq!(made.len(), 3);
    assert_eq!(
        result,
        Err(SundialsError::ReturnCode { solver: "CVODE", function: "CVodeGetNumErrTestFails", code: -1 })
    );
    let (made, result) = drive(CallSequence::new(SolverKind::Cvode, stats_calls()), |_, _| CallOutcome::flag(0));
    assert_eq!(made.len(), 5);
    assert_eq!(result, Ok(()));
}

#[test]
fn no_sensitivities_means_no_call() {
    let seq = CallSequence::new(SolverKind::Cvodes, sensitivity_calls(0));
    assert_eq!(seq.next_call(), None);
    assert_eq!(seq.result(), Some(Ok(())));
    assert_eq!(sensitivity_calls(3), vec![SundialsCall::GetSens]);
}

#[test]
fn sensitivity_failure() {
    let (_, result) = drive(CallSequence::new(SolverKind::Cvodes, sensitivity_calls(1)), |_, _| {
        CallOutcome::flag(-40)
    });
    assert_eq!(result, Err(SundialsError::ReturnCode { solver: "CVODES", function: "CVodeGetSens", code: -40 }));
}

#[test]
fn reinit_and_calc_ic() {
    let (_, result) = drive(CallSequence::new(SolverKind::Ida, calc_ic_calls()), |_, _| CallOutcome::flag(-14));
    assert_eq!(result, Err(SundialsError::ReturnCode { solver: "IDA", function: "IDACalcIC", code: -14 }));
    let (_, result) = drive(CallSequence::new(SolverKind::Cvode, reinit_calls()), |_, _| CallOutcome::flag(-22));
    assert_eq!(result, Err(SundialsError::ReturnCode { solver: "CVODE", function: "CVodeReInit", code: -22 }));
}

#[test]
fn pending_until_finished() {
    let mut seq = CallSequence::new(SolverKind::Cvode, stats_calls());
    assert_eq!(seq.result(), None);
    seq.report(CallOutcome::flag(0));
    assert_eq!(seq.result(), None);
    assert_eq!(seq.next_call(), Some(SundialsCall::GetNumRhsEvals));
}

#[test]
fn function_names() {
    assert_eq!(function_name(SolverKind::Cvodes, SundialsCall::SetSensParams), "CVodeSetSensParams");
    assert_eq!(function_name(SolverKind::Idas, SundialsCall::SensEETolerances), "IDASensEEtolerances");
    assert_eq!(SolverKind::Cvodes.name(), "CVODES");
    assert_eq!(SolverKind::Idas.create_name(), "IDACreate (IDAS)");
}
