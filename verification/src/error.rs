//! Error type shared by every solver, and the rule that maps a SUNDIALS
//! return flag to success or failure.

use vstd::prelude::*;

verus! {

/// Everything that can go wrong while creating or driving a solver.
#[derive(Debug, Clone, Copy, PartialEq, Eq)]
pub enum SundialsError {
    /// A creation function returned no object; the payload names it.
    Memory(&'static str),
    /// A SUNDIALS function returned a negative flag.
    ReturnCode { solver: &'static str, function: &'static str, code: i32 },
    /// The right-hand side function reported a non-zero flag.
    RhsError(i32),
    /// `N_VNew_Serial` returned no vector.
    NVectorCreate,
    /// `SUNDenseMatrix` returned no matrix.
    MatrixCreate,
    /// `SUNLinSol_Dense` returned no linear solver.
    LinearSolverCreate,
    /// The step size became too small.
    TooMuchWork,
    /// The solution appears to diverge.
    Diverge,
}

/// The meaning of a SUNDIALS flag: every non-negative flag is success, a
/// negative flag is the error that names the solver, the function and the flag.
pub open spec fn flag_result(code: i32, solver: &'static str, function: &'static str) -> Result<(), SundialsError> {
    if code >= 0 {
        Ok(())
    } else {
        Err(SundialsError::ReturnCode { solver, function, code })
    }
}

/// Maps a SUNDIALS integer flag to `Ok(())` or the matching `Err`.
pub fn check_flag(flag: i32, solver: &'static str, function: &'static str) -> (r: Result<(), SundialsError>)
    ensures
        r == flag_result(flag, solver, function),
{
    if flag >= 0 {
        Ok(())
    } else {
        Err(SundialsError::ReturnCode { solver, function, code: flag })
    }
}

} // verus!
