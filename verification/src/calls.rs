//! The SUNDIALS calls that the solvers make, the rule that tells a failed call
//! from a successful one, and the error each failure is reported as.
//!
//! A solver is created, stepped and queried by a fixed sequence of calls into
//! the C library.  This module describes each call by the plain values that
//! the library decides (which function, which sizes, which option codes); the
//! caller performs the call and reports what it returned as a [`CallOutcome`].

use vstd::prelude::*;

use crate::error::{check_flag, flag_result, SundialsError};

verus! {

/// `CV_ADAMS` in `cvode.h`.
pub const CV_ADAMS: i32 = 1;
/// `CV_BDF` in `cvode.h`.
pub const CV_BDF: i32 = 2;
/// `CV_NORMAL` in `cvode.h`: integrate up to the output time.
pub const CV_NORMAL: i32 = 1;
/// `CV_SIMULTANEOUS` in `cvodes.h`.
pub const CV_SIMULTANEOUS: i32 = 1;
/// `CV_STAGGERED` in `cvodes.h`.
pub const CV_STAGGERED: i32 = 2;
/// `IDA_NORMAL` in `ida.h`: integrate up to the output time.
pub const IDA_NORMAL: i32 = 1;
/// `IDA_YA_YDP_INIT` in `ida.h`: correct the algebraic components of `y`
/// and the differential components of `y'`.
pub const IDA_YA_YDP_INIT: i32 = 1;
/// `IDA_SIMULTANEOUS` in `idas.h`.
pub const IDA_SIMULTANEOUS: i32 = 1;

/// The four integrators; each names itself in the errors it reports.
#[derive(Debug, Clone, Copy, PartialEq, Eq, Structural)]
pub enum SolverKind {
    Cvode,
    Cvodes,
    Ida,
    Idas,
}

/// The name a solver reports in [`SundialsError::ReturnCode`].
pub open spec fn spec_solver_name(kind: SolverKind) -> &'static str {
    match kind {
        SolverKind::Cvode => "CVODE",
        SolverKind::Cvodes => "CVODES",
        SolverKind::Ida => "IDA",
        SolverKind::Idas => "IDAS",
    }
}

/// What a solver reports in [`SundialsError::Memory`] when its integrator
/// memory cannot be created.
pub open spec fn spec_create_name(kind: SolverKind) -> &'static str {
    match kind {
        SolverKind::Cvode => "CVodeCreate",
        SolverKind::Cvodes => "CVodeCreate (CVODES)",
        SolverKind::Ida => "IDACreate",
        SolverKind::Idas => "IDACreate (IDAS)",
    }
}

/// CVODE and CVODES share the `CVode*` functions; IDA and IDAS the `IDA*` ones.
pub open spec fn is_cvode_family(kind: SolverKind) -> bool {
    kind == SolverKind::Cvode || kind == SolverKind::Cvodes
}

impl SolverKind {
    pub fn name(self) -> (r: &'static str)
        ensures
            r == spec_solver_name(self),
    {
        match self {
            SolverKind::Cvode => "CVODE",
            SolverKind::Cvodes => "CVODES",
            SolverKind::Ida => "IDA",
            SolverKind::Idas => "IDAS",
        }
    }

    pub fn create_name(self) -> (r: &'static str)
        ensures
            r == spec_create_name(self),
    {
        match self {
            SolverKind::Cvode => "CVodeCreate",
            SolverKind::Cvodes => "CVodeCreate (CVODES)",
            SolverKind::Ida => "IDACreate",
            SolverKind::Idas => "IDACreate (IDAS)",
        }
    }
}

/// What a vector holds.
#[derive(Debug, Clone, Copy, PartialEq, Eq, Structural)]
pub enum VectorRole {
    /// The state `y`, starting from `y0`.
    State,
    /// The derivative `y'`, starting from `yp0`.
    StateDerivative,
    /// The per-component absolute tolerances.
    AbsoluteTolerance,
    /// The sensitivity to parameter `index`, starting from `s0[index]`.
    Sensitivity { index: usize },
    /// The derivative of the sensitivity to parameter `index`, starting at zero.
    SensitivityDerivative { index: usize },
}

/// The values a new vector starts from, for a vector of `role`: `y0`,
/// `yp0`, the absolute tolerances, the `index`-th initial sensitivity; `None`
/// for the derivative of a sensitivity, which starts at zero.
pub open spec fn spec_initial_values<'a, T>(
    role: VectorRole,
    y0: &'a Vec<T>,
    yp0: &'a Vec<T>,
    atol: &'a Vec<T>,
    s0: &'a Vec<Vec<T>>,
) -> Option<&'a Vec<T>> {
    match role {
        VectorRole::State => Some(y0),
        VectorRole::StateDerivative => Some(yp0),
        VectorRole::AbsoluteTolerance => Some(atol),
        VectorRole::Sensitivity { index } => Some(&s0@[index as int]),
        VectorRole::SensitivityDerivative { .. } => None,
    }
}

/// Selects the values a new vector of `role` is filled with.
pub fn initial_values<'a, T>(
    role: VectorRole,
    y0: &'a Vec<T>,
    yp0: &'a Vec<T>,
    atol: &'a Vec<T>,
    s0: &'a Vec<Vec<T>>,
) -> (r: Option<&'a Vec<T>>)
    requires
        role matches VectorRole::Sensitivity { index } ==> index < s0.len(),
    ensures
        r == spec_initial_values(role, y0, yp0, atol, s0),
{
    match role {
        VectorRole::State => Some(y0),
        VectorRole::StateDerivative => Some(yp0),
        VectorRole::AbsoluteTolerance => Some(atol),
        VectorRole::Sensitivity { index } => Some(&s0[index]),
        VectorRole::SensitivityDerivative { .. } => None,
    }
}

/// One call into SUNDIALS, with every argument that the library decides.
/// Times, tolerances and state values are supplied by the caller.
#[derive(Debug, Clone, Copy, PartialEq, Eq, Structural)]
pub enum SundialsCall {
    /// `SUNContext_Create`.
    CreateContext,
    /// `CVodeCreate(method_code)`.
    CreateSolverMemory { method_code: i32 },
    /// `IDACreate`.
    CreateIdaMemory,
    /// `N_VNew_Serial(len)`, filled by the caller with the values of `role`.
    NewVector { len: usize, role: VectorRole },
    /// `CVodeInit` / `IDAInit`.
    Init,
    /// `CVodeSStolerances` / `IDASStolerances`.
    ScalarTolerances,
    /// `CVodeSVtolerances` / `IDASVtolerances`.
    VectorTolerances,
    /// `CVodeSetUserData` / `IDASetUserData`.
    SetUserData,
    /// `CVodeSetMaxNumSteps` / `IDASetMaxNumSteps`.
    SetMaxNumSteps { max_steps: i64 },
    /// `SUNDenseMatrix(rows, cols)`.
    NewDenseMatrix { rows: usize, cols: usize },
    /// `SUNLinSol_Dense`.
    NewDenseLinearSolver,
    /// `CVodeSetLinearSolver` / `IDASetLinearSolver`.
    SetLinearSolver,
    /// `CVodeSensInit` / `IDASensInit` with `num_params` parameters.
    SensInit { num_params: usize, method_code: i32 },
    /// `CVodeSensEEtolerances` / `IDASensEEtolerances`.
    SensEETolerances,
    /// `CVodeSetSensParams` / `IDASetSensParams`.
    SetSensParams,
    /// `CVode` / `IDASolve` with the given task.
    Solve { task: i32 },
    /// `CVodeReInit` / `IDAReInit`.
    ReInit,
    /// `IDACalcIC` with the given option.
    CalcIC { icopt: i32 },
    /// `CVodeGetSens` / `IDAGetSens`.
    GetSens,
    /// `CVodeGetNumSteps`.
    GetNumSteps,
    /// `CVodeGetNumRhsEvals`.
    GetNumRhsEvals,
    /// `CVodeGetNumErrTestFails`.
    GetNumErrTestFails,
    /// `CVodeGetLastOrder`.
    GetLastOrder,
    /// `CVodeGetCurrentTime`.
    GetCurrentTime,
}

/// The name of the SUNDIALS function that reports its status through a flag,
/// as it appears in [`SundialsError::ReturnCode`].
pub open spec fn spec_function_name(kind: SolverKind, call: SundialsCall) -> &'static str {
    let cv = is_cvode_family(kind);
    match call {
        SundialsCall::CreateContext => "SUNContext_Create",
        SundialsCall::CreateSolverMemory { .. } => "CVodeCreate",
        SundialsCall::CreateIdaMemory => "IDACreate",
        SundialsCall::NewVector { .. } => "N_VNew_Serial",
        SundialsCall::Init => if cv { "CVodeInit" } else { "IDAInit" },
        SundialsCall::ScalarTolerances => if cv { "CVodeSStolerances" } else { "IDASStolerances" },
        SundialsCall::VectorTolerances => if cv { "CVodeSVtolerances" } else { "IDASVtolerances" },
        SundialsCall::SetUserData => if cv { "CVodeSetUserData" } else { "IDASetUserData" },
        SundialsCall::SetMaxNumSteps { .. } => if cv { "CVodeSetMaxNumSteps" } else { "IDASetMaxNumSteps" },
        SundialsCall::NewDenseMatrix { .. } => "SUNDenseMatrix",
        SundialsCall::NewDenseLinearSolver => "SUNLinSol_Dense",
        SundialsCall::SetLinearSolver => if cv { "CVodeSetLinearSolver" } else { "IDASetLinearSolver" },
        SundialsCall::SensInit { .. } => if cv { "CVodeSensInit" } else { "IDASensInit" },
        SundialsCall::SensEETolerances => if cv { "CVodeSensEEtolerances" } else { "IDASensEEtolerances" },
        SundialsCall::SetSensParams => if cv { "CVodeSetSensParams" } else { "IDASetSensParams" },
        SundialsCall::Solve { .. } => if cv { "CVode" } else { "IDASolve" },
        SundialsCall::ReInit => if cv { "CVodeReInit" } else { "IDAReInit" },
        SundialsCall::CalcIC { .. } => "IDACalcIC",
        SundialsCall::GetSens => if cv { "CVodeGetSens" } else { "IDAGetSens" },
        SundialsCall::GetNumSteps => if cv { "CVodeGetNumSteps" } else { "IDAGetNumSteps" },
        SundialsCall::GetNumRhsEvals => if cv { "CVodeGetNumRhsEvals" } else { "IDAGetNumResEvals" },
        SundialsCall::GetNumErrTestFails => if cv { "CVodeGetNumErrTestFails" } else { "IDAGetNumErrTestFails" },
        SundialsCall::GetLastOrder => if cv { "CVodeGetLastOrder" } else { "IDAGetLastOrder" },
        SundialsCall::GetCurrentTime => if cv { "CVodeGetCurrentTime" } else { "IDAGetCurrentTime" },
    }
}

pub fn function_name(kind: SolverKind, call: SundialsCall) -> (r: &'static str)
    ensures
        r == spec_function_name(kind, call),
{
    let cv = match kind {
        SolverKind::Cvode | SolverKind::Cvodes => true,
        SolverKind::Ida | SolverKind::Idas => false,
    };
    match call {
        SundialsCall::CreateContext => "SUNContext_Create",
        SundialsCall::CreateSolverMemory { .. } => "CVodeCreate",
        SundialsCall::CreateIdaMemory => "IDACreate",
        SundialsCall::NewVector { .. } => "N_VNew_Serial",
        SundialsCall::Init => if cv { "CVodeInit" } else { "IDAInit" },
        SundialsCall::ScalarTolerances => if cv { "CVodeSStolerances" } else { "IDASStolerances" },
        SundialsCall::VectorTolerances => if cv { "CVodeSVtolerances" } else { "IDASVtolerances" },
        SundialsCall::SetUserData => if cv { "CVodeSetUserData" } else { "IDASetUserData" },
        SundialsCall::SetMaxNumSteps { .. } => if cv { "CVodeSetMaxNumSteps" } else { "IDASetMaxNumSteps" },
        SundialsCall::NewDenseMatrix { .. } => "SUNDenseMatrix",
        SundialsCall::NewDenseLinearSolver => "SUNLinSol_Dense",
        SundialsCall::SetLinearSolver => if cv { "CVodeSetLinearSolver" } else { "IDASetLinearSolver" },
        SundialsCall::SensInit { .. } => if cv { "CVodeSensInit" } else { "IDASensInit" },
        SundialsCall::SensEETolerances => if cv { "CVodeSensEEtolerances" } else { "IDASensEEtolerances" },
        SundialsCall::SetSensParams => if cv { "CVodeSetSensParams" } else { "IDASetSensParams" },
        SundialsCall::Solve { .. } => if cv { "CVode" } else { "IDASolve" },
        SundialsCall::ReInit => if cv { "CVodeReInit" } else { "IDAReInit" },
        SundialsCall::CalcIC { .. } => "IDACalcIC",
        SundialsCall::GetSens => if cv { "CVodeGetSens" } else { "IDAGetSens" },
        SundialsCall::GetNumSteps => if cv { "CVodeGetNumSteps" } else { "IDAGetNumSteps" },
        SundialsCall::GetNumRhsEvals => if cv { "CVodeGetNumRhsEvals" } else { "IDAGetNumResEvals" },
        SundialsCall::GetNumErrTestFails => if cv { "CVodeGetNumErrTestFails" } else { "IDAGetNumErrTestFails" },
        SundialsCall::GetLastOrder => if cv { "CVodeGetLastOrder" } else { "IDAGetLastOrder" },
        SundialsCall::GetCurrentTime => if cv { "CVodeGetCurrentTime" } else { "IDAGetCurrentTime" },
    }
}

/// What a call returned: its integer flag (0 for the creation functions,
/// which return a pointer) and whether the pointer it returned was null.
#[derive(Debug, Clone, Copy, PartialEq, Eq, Structural)]
pub struct CallOutcome {
    pub code: i32,
    pub null: bool,
}

impl CallOutcome {
    /// The outcome of a function that returns a flag.
    pub fn flag(code: i32) -> (r: CallOutcome)
        ensures
            r == (CallOutcome { code, null: false }),
    {
        CallOutcome { code, null: false }
    }

    /// The outcome of a function that returns a pointer.
    pub fn pointer(null: bool) -> (r: CallOutcome)
        ensures
            r == (CallOutcome { code: 0, null }),
    {
        CallOutcome { code: 0, null }
    }
}

/// The error a call's outcome is reported as, or `None` when the call
/// succeeded.
///
/// - `SUNContext_Create` fails when it returns a non-zero flag or no context;
/// - the integrator memory, vectors, the matrix and the linear solver fail
///   when no object comes back, each with its own error;
/// - every other function fails exactly when its flag is negative.
pub open spec fn call_failure(kind: SolverKind, call: SundialsCall, outcome: CallOutcome) -> Option<SundialsError> {
    match call {
        SundialsCall::CreateContext =>
            if outcome.code != 0 || outcome.null { Some(SundialsError::Memory("SUNContext_Create")) } else { None },
        SundialsCall::CreateSolverMemory { .. } | SundialsCall::CreateIdaMemory =>
            if outcome.null { Some(SundialsError::Memory(spec_create_name(kind))) } else { None },
        SundialsCall::NewVector { .. } =>
            if outcome.null { Some(SundialsError::NVectorCreate) } else { None },
        SundialsCall::NewDenseMatrix { .. } =>
            if outcome.null { Some(SundialsError::MatrixCreate) } else { None },
        SundialsCall::NewDenseLinearSolver =>
            if outcome.null { Some(SundialsError::LinearSolverCreate) } else { None },
        _ => match flag_result(outcome.code, spec_solver_name(kind), spec_function_name(kind, call)) {
            Ok(()) => None,
            Err(e) => Some(e),
        },
    }
}

/// Tells a failed call from a successful one, and names the error.
pub fn failure(kind: SolverKind, call: SundialsCall, outcome: CallOutcome) -> (r: Option<SundialsError>)
    ensures
        r == call_failure(kind, call, outcome),
{
    match call {
        SundialsCall::CreateContext => {
            if outcome.code != 0 || outcome.null {
                Some(SundialsError::Memory("SUNContext_Create"))
            } else {
                None
            }
        },
        SundialsCall::CreateSolverMemory { .. } | SundialsCall::CreateIdaMemory => {
            if outcome.null {
                Some(SundialsError::Memory(kind.create_name()))
            } else {
                None
            }
        },
        SundialsCall::NewVector { .. } => {
            if outcome.null { Some(SundialsError::NVectorCreate) } else { None }
        },
        SundialsCall::NewDenseMatrix { .. } => {
            if outcome.null { Some(SundialsError::MatrixCreate) } else { None }
        },
        SundialsCall::NewDenseLinearSolver => {
            if outcome.null { Some(SundialsError::LinearSolverCreate) } else { None }
        },
        _ => {
            match check_flag(outcome.code, kind.name(), function_name(kind, call)) {
                Ok(()) => None,
                Err(e) => Some(e),
            }
        },
    }
}

/// The flag a user callback (right-hand side or residual) hands back to
/// SUNDIALS: 0 for `Ok(())`, the callback's own flag otherwise (positive for a
/// recoverable failure, negative for an unrecoverable one).
pub open spec fn spec_callback_flag(r: Result<(), i32>) -> i32 {
    match r {
        Ok(()) => 0,
        Err(flag) => flag,
    }
}

pub fn callback_flag(r: Result<(), i32>) -> (flag: i32)
    ensures
        flag == spec_callback_flag(r),
{
    match r {
        Ok(()) => 0,
        Err(flag) => flag,
    }
}

} // verus!
