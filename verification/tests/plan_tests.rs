use sundials_rs::calls::initial_values;
use sundials_rs::calls::{SundialsCall as C, VectorRole as R, CV_ADAMS, CV_BDF, CV_SIMULTANEOUS, CV_STAGGERED, IDA_SIMULTANEOUS};
use sundials_rs::cvode::{CvodeOptions, Method};
use sundials_rs::cvodes::{CvodesOptions, SensMethod};
use sundials_rs::ida::IdaOptions;
use sundials_rs::idas::IdasOptions;

#[test]
fn method_codes() {
    assert_eq!(Method::Adams.as_c_int(), 1);
    assert_eq!(Method::BDF.as_c_int(), 2);
    assert_eq!(CV_ADAMS, 1);
    assert_eq!(CV_BDF, 2);
    assert_ne!(Method::Adams.as_c_int(), Method::BDF.as_c_int());
}

#[test]
fn sens_method_codes() {
    assert_eq!(SensMethod::Simultaneous.as_c_int(), CV_SIMULTANEOUS);
    assert_eq!(SensMethod::Staggered.as_c_int(), CV_STAGGERED);
    assert_eq!(SensMethod::Simultaneous.as_c_int(), 1);
    assert_eq!(SensMethod::Staggered.as_c_int(), 2);
}

#[test]
fn cvode_default_plan() {
    let o = CvodeOptions::new(Method::BDF, 3);
    assert_eq!(
        o.build_calls(),
        vec![
            C::CreateContext,
            C::CreateSolverMemory { method_code: 2 },
            C::NewVector { len: 3, role: R::State },
            C::Init,
            C::ScalarTolerances,
            C::SetUserData,
            C::NewDenseMatrix { rows: 3, cols: 3 },
            C::NewDenseLinearSolver,
            C::SetLinearSolver,
        ]
    );
}

#[test]
fn cvode_vector_tolerance_and_step_limit() {
    // The Robertson example: three components, per-component atol, 5000 steps.
    let o = CvodeOptions::new(Method::Adams, 3).atol_vec(3).max_steps(5000);
    assert_eq!(
        o.build_calls(),
        vec![
            C::CreateContext,
            C::CreateSolverMemory { method_code: 1 },
            C::NewVector { len: 3, role: R::State },
            C::Init,
            C::NewVector { len: 3, role: R::AbsoluteTolerance },
            C::VectorTolerances,
            C::SetUserData,
            C::SetMaxNumSteps { max_steps: 5000 },
            C::NewDenseMatrix { rows: 3, cols: 3 },
            C::NewDenseLinearSolver,
            C::SetLinearSolver,
        ]
    );
    // Going back to a scalar tolerance drops the tolerance vector.
    let back = o.atol();
    assert!(back.build_calls().contains(&C::ScalarTolerances));
    assert!(!back.build_calls().contains(&C::VectorTolerances));
}

#[test]
fn cvodes_plan_without_sensitivity() {
    let o = CvodesOptions::new(1);
    assert_eq!(o.num_sens(), 0);
    assert_eq!(
        o.build_calls(),
        vec![
            C::CreateContext,
            C::CreateSolverMemory { method_code: CV_BDF },
            C::NewVector { len: 1, role: R::State },
            C::Init,
            C::ScalarTolerances,
            C::SetUserData,
            C::NewDenseMatrix { rows: 1, cols: 1 },
            C::NewDenseLinearSolver,
            C::SetLinearSolver,
        ]
    );
}

#[test]
fn cvodes_plan_with_sensitivity() {
    // Robertson with sensitivities to k1, k2, k3.
    let o = CvodesOptions::new(3)
        .atol_vec(3)
        .with_forward_sensitivity(3, vec![3, 3, 3], SensMethod::Staggered);
    assert_eq!(o.num_sens(), 3);
    let calls = o.build_calls();
    assert_eq!(
        calls[10..].to_vec(),
        vec![
            C::NewVector { len: 3, role: R::Sensitivity { index: 0 } },
            C::NewVector { len: 3, role: R::Sensitivity { index: 1 } },
            C::NewVector { len: 3, role: R::Sensitivity { index: 2 } },
            C::SensInit { num_params: 3, method_code: CV_STAGGERED },
            C::SensEETolerances,
            C::SetSensParams,
        ]
    );
    assert_eq!(calls[1], C::CreateSolverMemory { method_code: CV_BDF });
}

#[test]
fn cvodes_sensitivity_with_no_parameters_skips_params() {
    let o = CvodesOptions::new(2).with_forward_sensitivity(0, vec![], SensMethod::Simultaneous);
    assert_eq!(o.num_sens(), 0);
    let calls = o.build_calls();
    assert_eq!(calls[calls.len() - 2..].to_vec(), vec![C::SensInit { num_params: 0, method_code: 1 }, C::SensEETolerances]);
    assert!(!calls.contains(&C::SetSensParams));
}

#[test]
fn ida_plan_puts_step_limit_last() {
    let o = IdaOptions::new(2, 2).max_steps(10_000);
    assert_eq!(
        o.build_calls(),
        vec![
            C::CreateContext,
            C::CreateIdaMemory,
            C::NewVector { len: 2, role: R::State },
            C::NewVector { len: 2, role: R::StateDerivative },
            C::Init,
            C::ScalarTolerances,
            C::SetUserData,
            C::NewDenseMatrix { rows: 2, cols: 2 },
            C::NewDenseLinearSolver,
            C::SetLinearSolver,
            C::SetMaxNumSteps { max_steps: 10_000 },
        ]
    );
}

#[test]
fn idas_without_parameters_matches_ida() {
    let ida = IdaOptions::new(3, 3);
    let idas = IdasOptions::new(3, 3);
    assert_eq!(idas.num_sens(), 0);
    assert_eq!(idas.build_calls(), ida.build_calls());
}

#[test]
fn idas_plan_with_sensitivity() {
    let o = IdasOptions::new(1, 1).with_forward_sensitivity(1, vec![1]);
    assert_eq!(o.num_sens(), 1);
    let calls = o.build_calls();
    assert_eq!(
        calls[10..].to_vec(),
        vec![
            C::NewVector { len: 1, role: R::Sensitivity { index: 0 } },
            C::NewVector { len: 1, role: R::SensitivityDerivative { index: 0 } },
            C::SensInit { num_params: 1, method_code: IDA_SIMULTANEOUS },
            C::SensEETolerances,
            C::SetSensParams,
        ]
    );
}

#[test]
fn idas_sensitivity_with_no_parameters_is_ida() {
    let o = IdasOptions::new(2, 2).with_forward_sensitivity(0, vec![]);
    assert_eq!(o.num_sens(), 0);
    assert_eq!(o.build_calls(), IdaOptions::new(2, 2).build_calls());
}

#[test]
fn idas_two_parameters() {
    let o = IdasOptions::new(2, 2).with_forward_sensitivity(2, vec![2, 2]);
    assert_eq!(o.num_sens(), 2);
    assert_eq!(
        o.build_calls()[10..].to_vec(),
        vec![
            C::NewVector { len: 2, role: R::Sensitivity { index: 0 } },
            C::NewVector { len: 2, role: R::SensitivityDerivative { index: 0 } },
            C::NewVector { len: 2, role: R::Sensitivity { index: 1 } },
            C::NewVector { len: 2, role: R::SensitivityDerivative { index: 1 } },
            C::SensInit { num_params: 2, method_code: IDA_SIMULTANEOUS },
            C::SensEETolerances,
            C::SetSensParams,
        ]
    );
}

#[test]
fn idas_initial_sensitivities_without_parameters_are_ignored() {
    let o = IdasOptions::new(2, 2).with_forward_sensitivity(0, vec![2, 2]);
    assert_eq!(o.num_sens(), 0);
    assert_eq!(o.build_calls(), IdaOptions::new(2, 2).build_calls());
}

#[test]
fn vectors_start_from_their_inputs() {
    let y0 = vec![1.0_f64, 0.0, 0.0];
    let yp0 = vec![-0.04_f64, 0.04, 0.0];
    let atol = vec![1e-8_f64, 1e-14, 1e-6];
    let s0 = vec![vec![0.0_f64; 3], vec![1.0_f64; 3]];
    assert_eq!(initial_values(R::State, &y0, &yp0, &atol, &s0), Some(&y0));
    assert_eq!(initial_values(R::StateDerivative, &y0, &yp0, &atol, &s0), Some(&yp0));
    assert_eq!(initial_values(R::AbsoluteTolerance, &y0, &yp0, &atol, &s0), Some(&atol));
    assert_eq!(initial_values(R::Sensitivity { index: 1 }, &y0, &yp0, &atol, &s0), Some(&s0[1]));
    assert_eq!(initial_values(R::SensitivityDerivative { index: 1 }, &y0, &yp0, &atol, &s0), None);
}
