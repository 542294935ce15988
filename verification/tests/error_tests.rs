use sundials_rs::calls::callback_flag;
use sundials_rs::error::check_flag;
use sundials_rs::SundialsError;

#[test]
fn zero_flag_is_success() {
    assert_eq!(check_flag(0, "CVODE", "CVode"), Ok(()));
}

#[test]
fn positive_flag_is_success() {
    // Positive flags are warnings such as CV_TSTOP_RETURN.
    assert_eq!(check_flag(1, "CVODE", "CVode"), Ok(()));
    assert_eq!(check_flag(i32::MAX, "IDA", "IDASolve"), Ok(()));
}

#[test]
fn negative_flag_names_solver_function_and_code() {
    assert_eq!(
        check_flag(-1, "CVODE", "CVode"),
        Err(SundialsError::ReturnCode { solver: "CVODE", function: "CVode", code: -1 })
    );
    assert_eq!(
        check_flag(i32::MIN, "IDAS", "IDAGetSens"),
        Err(SundialsError::ReturnCode { solver: "IDAS", function: "IDAGetSens", code: i32::MIN })
    );
}

#[test]
fn callback_results_become_flags() {
    assert_eq!(callback_flag(Ok(())), 0);
    assert_eq!(callback_flag(Err(1)), 1);
    assert_eq!(callback_flag(Err(-7)), -7);
}
