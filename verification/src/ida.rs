//! IDA — implicit DAE initial value problems `F(t, y, y') = 0`.
//!
//! Creating an IDA solver makes a context, the integrator memory, the two
//! state vectors `y` and `y'`, initialises the integrator, hands over the
//! scalar tolerances and the user data, attaches the dense linear solver and,
//! last, the step limit if one was set.

use vstd::prelude::*;

use crate::calls::{SundialsCall, VectorRole};
use crate::cvode::{dense_solver_calls, max_steps_calls, push_dense_solver_calls, push_max_steps_calls};

verus! {

/// What creating an IDA solver decides on.
#[derive(Debug, Clone, Copy, PartialEq, Eq, Structural)]
pub struct IdaOptions {
    /// The number of equations: the common length of `y0` and `yp0`.
    pub neq: usize,
    pub max_steps: Option<i64>,
}

/// The calls that create the integrator and its state, up to the dense
/// linear solver; IDA and IDAS share them.
pub open spec fn ida_core_calls(neq: usize) -> Seq<SundialsCall> {
    seq![
        SundialsCall::CreateContext,
        SundialsCall::CreateIdaMemory,
        SundialsCall::NewVector { len: neq, role: VectorRole::State },
        SundialsCall::NewVector { len: neq, role: VectorRole::StateDerivative },
        SundialsCall::Init,
        SundialsCall::ScalarTolerances,
        SundialsCall::SetUserData,
    ] + dense_solver_calls(neq)
}

/// The calls that create an IDA solver.
pub open spec fn ida_build_calls(o: IdaOptions) -> Seq<SundialsCall> {
    ida_core_calls(o.neq) + max_steps_calls(o.max_steps)
}

pub fn push_ida_core_calls(v: &mut Vec<SundialsCall>, neq: usize)
    ensures
        final(v)@ == old(v)@ + ida_core_calls(neq),
{
    v.push(SundialsCall::CreateContext);
    v.push(SundialsCall::CreateIdaMemory);
    v.push(SundialsCall::NewVector { len: neq, role: VectorRole::State });
    v.push(SundialsCall::NewVector { len: neq, role: VectorRole::StateDerivative });
    v.push(SundialsCall::Init);
    v.push(SundialsCall::ScalarTolerances);
    v.push(SundialsCall::SetUserData);
    push_dense_solver_calls(v, neq);
    assert(v@ =~= old(v)@ + ida_core_calls(neq));
}

impl IdaOptions {
    /// Options for the initial state `y0` and derivative `yp0`, which must
    /// have the same length; no step limit.
    pub fn new(y0_len: usize, yp0_len: usize) -> (r: IdaOptions)
        requires
            y0_len == yp0_len,
        ensures
            r == (IdaOptions { neq: y0_len, max_steps: None }),
    {
        IdaOptions { neq: y0_len, max_steps: None }
    }

    /// The maximum number of internal steps per call to the integrator.
    pub fn max_steps(self, n: i64) -> (r: IdaOptions)
        ensures
            r == (IdaOptions { max_steps: Some(n), ..self }),
    {
        IdaOptions { max_steps: Some(n), ..self }
    }

    /// The calls that create the solver, in order.
    pub fn build_calls(&self) -> (r: Vec<SundialsCall>)
        ensures
            r@ == ida_build_calls(*self),
    {
        let mut v: Vec<SundialsCall> = Vec::new();
        push_ida_core_calls(&mut v, self.neq);
        push_max_steps_calls(&mut v, self.max_steps);
        assert(v@ =~= ida_build_calls(*self));
        v
    }
}

} // verus!
