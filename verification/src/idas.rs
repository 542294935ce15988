//! IDAS — IDA with forward sensitivity analysis.
//!
//! Creation is that of IDA; when there is at least one parameter it then
//! makes, for each initial sensitivity, a vector of its length and a vector
//! of `neq` values for its derivative, initialises the sensitivity module
//! (simultaneous corrector), selects estimated tolerances, and — when there is
//! at least one sensitivity vector — hands the parameter array to the solver.

use vstd::prelude::*;

use crate::calls::{SundialsCall, VectorRole, IDA_SIMULTANEOUS};
use crate::cvode::{max_steps_calls, push_max_steps_calls};
use crate::cvodes::sensitivity_fits;
use crate::ida::{ida_core_calls, push_ida_core_calls};

verus! {

/// What creating an IDAS solver decides on.
#[derive(Debug, PartialEq, Eq)]
pub struct IdasOptions {
    /// The number of equations: the common length of `y0` and `yp0`.
    pub neq: usize,
    pub max_steps: Option<i64>,
    /// The number of parameters.
    pub num_params: usize,
    /// The length of each initial sensitivity.
    pub s0_lens: Vec<usize>,
}

impl IdasOptions {
    /// The options a solver can be created from: with parameters, one
    /// initial sensitivity per parameter, each with one value per equation;
    /// without parameters the initial sensitivities are not used.
    pub open spec fn wf(&self) -> bool {
        self.num_params == 0 || sensitivity_fits(self.num_params, self.s0_lens@, self.neq)
    }
}

/// For each initial sensitivity, its vector and the vector of its derivative.
pub open spec fn idas_sens_vector_calls(s0_lens: Seq<usize>, neq: usize) -> Seq<SundialsCall>
    decreases s0_lens.len(),
{
    if s0_lens.len() == 0 {
        Seq::empty()
    } else {
        idas_sens_vector_calls(s0_lens.drop_last(), neq) + seq![
            SundialsCall::NewVector {
                len: s0_lens.last(),
                role: VectorRole::Sensitivity { index: (s0_lens.len() - 1) as usize },
            },
            SundialsCall::NewVector {
                len: neq,
                role: VectorRole::SensitivityDerivative { index: (s0_lens.len() - 1) as usize },
            },
        ]
    }
}

/// The sensitivity setup, made only when there is at least one parameter.
pub open spec fn idas_sensitivity_calls(o: IdasOptions) -> Seq<SundialsCall> {
    if o.num_params > 0 {
        idas_sens_vector_calls(o.s0_lens@, o.neq) + seq![
            SundialsCall::SensInit { num_params: o.num_params, method_code: IDA_SIMULTANEOUS },
            SundialsCall::SensEETolerances,
        ] + if o.s0_lens.len() > 0 {
            seq![SundialsCall::SetSensParams]
        } else {
            Seq::empty()
        }
    } else {
        Seq::empty()
    }
}

/// The calls that create an IDAS solver.
pub open spec fn idas_build_calls(o: IdasOptions) -> Seq<SundialsCall> {
    ida_core_calls(o.neq) + max_steps_calls(o.max_steps) + idas_sensitivity_calls(o)
}

/// Without parameters, creating an IDAS solver makes exactly the calls that
/// create an IDA solver.
pub proof fn law_idas_without_parameters_is_ida(o: IdasOptions)
    requires
        o.num_params == 0,
    ensures
        idas_build_calls(o) == crate::ida::ida_build_calls(crate::ida::IdaOptions { neq: o.neq, max_steps: o.max_steps }),
{
    assert(idas_build_calls(o) =~= crate::ida::ida_build_calls(
        crate::ida::IdaOptions { neq: o.neq, max_steps: o.max_steps },
    ));
}

/// With `n` initial sensitivities, the sensitivity setup creates `2 * n`
/// vectors.
pub proof fn law_idas_sens_vector_count(s0_lens: Seq<usize>, neq: usize)
    ensures
        idas_sens_vector_calls(s0_lens, neq).len() == 2 * s0_lens.len(),
    decreases s0_lens.len(),
{
    if s0_lens.len() > 0 {
        law_idas_sens_vector_count(s0_lens.drop_last(), neq);
    }
}

/// The `i`-th initial sensitivity gives the vectors at `2 * i` (its own, of
/// its length) and `2 * i + 1` (its derivative, of `neq` values).
proof fn lemma_idas_sens_vector_at(s0_lens: Seq<usize>, neq: usize, i: int)
    requires
        0 <= i < s0_lens.len(),
    ensures
        idas_sens_vector_calls(s0_lens, neq)[2 * i] == (SundialsCall::NewVector {
            len: s0_lens[i],
            role: VectorRole::Sensitivity { index: i as usize },
        }),
        idas_sens_vector_calls(s0_lens, neq)[2 * i + 1] == (SundialsCall::NewVector {
            len: neq,
            role: VectorRole::SensitivityDerivative { index: i as usize },
        }),
    decreases s0_lens.len(),
{
    let prefix = s0_lens.drop_last();
    law_idas_sens_vector_count(prefix, neq);
    if i < s0_lens.len() - 1 {
        lemma_idas_sens_vector_at(prefix, neq, i);
    }
}

/// Creating an IDAS solver from fitting options with at least one parameter
/// makes exactly one sensitivity vector per parameter, each of `neq` values,
/// each followed by the vector of its derivative.
pub proof fn law_idas_vectors_fit(o: IdasOptions)
    requires
        o.wf(),
    ensures
        o.spec_num_sens() == o.num_params,
        o.num_params > 0 ==> idas_sens_vector_calls(o.s0_lens@, o.neq).len() == 2 * o.num_params,
        forall|i: int|
            0 <= i < o.num_params ==> {
                &&& #[trigger] idas_sens_vector_calls(o.s0_lens@, o.neq)[2 * i] == (SundialsCall::NewVector {
                    len: o.neq,
                    role: VectorRole::Sensitivity { index: i as usize },
                })
                &&& idas_sens_vector_calls(o.s0_lens@, o.neq)[2 * i + 1] == (SundialsCall::NewVector {
                    len: o.neq,
                    role: VectorRole::SensitivityDerivative { index: i as usize },
                })
            },
{
    law_idas_sens_vector_count(o.s0_lens@, o.neq);
    assert forall|i: int| 0 <= i < o.num_params implies {
        &&& #[trigger] idas_sens_vector_calls(o.s0_lens@, o.neq)[2 * i] == (SundialsCall::NewVector {
            len: o.neq,
            role: VectorRole::Sensitivity { index: i as usize },
        })
        &&& idas_sens_vector_calls(o.s0_lens@, o.neq)[2 * i + 1] == (SundialsCall::NewVector {
            len: o.neq,
            role: VectorRole::SensitivityDerivative { index: i as usize },
        })
    } by {
        lemma_idas_sens_vector_at(o.s0_lens@, o.neq, i);
        assert(o.s0_lens@[i] == o.neq);
    }
}

pub fn push_idas_sens_vector_calls(v: &mut Vec<SundialsCall>, s0_lens: &Vec<usize>, neq: usize)
    ensures
        final(v)@ == old(v)@ + idas_sens_vector_calls(s0_lens@, neq),
{
    let mut i: usize = 0;
    while i < s0_lens.len()
        invariant
            i <= s0_lens.len(),
            v@ == old(v)@ + idas_sens_vector_calls(s0_lens@.take(i as int), neq),
        decreases s0_lens.len() - i,
    {
        let ghost prev = v@;
        v.push(SundialsCall::NewVector { len: s0_lens[i], role: VectorRole::Sensitivity { index: i } });
        v.push(SundialsCall::NewVector { len: neq, role: VectorRole::SensitivityDerivative { index: i } });
        assert(s0_lens@.take(i + 1).drop_last() =~= s0_lens@.take(i as int));
        assert(v@ =~= old(v)@ + idas_sens_vector_calls(s0_lens@.take(i + 1), neq));
        i = i + 1;
    }
    assert(s0_lens@.take(s0_lens.len() as int) =~= s0_lens@);
}

impl IdasOptions {
    /// Options for the initial state `y0` and derivative `yp0`, which must
    /// have the same length; no step limit and no parameters.
    pub fn new(y0_len: usize, yp0_len: usize) -> (r: IdasOptions)
        requires
            y0_len == yp0_len,
        ensures
            r.neq == y0_len,
            r.max_steps is None,
            r.num_params == 0,
            r.s0_lens@.len() == 0,
            r.wf(),
    {
        IdasOptions { neq: y0_len, max_steps: None, num_params: 0, s0_lens: Vec::new() }
    }

    /// The maximum number of internal steps per call to the integrator.
    pub fn max_steps(self, n: i64) -> (r: IdasOptions)
        ensures
            r == (IdasOptions { max_steps: Some(n), ..self }),
    {
        IdasOptions { max_steps: Some(n), ..self }
    }

    /// Forward sensitivity with respect to `num_params` parameters, starting
    /// from one initial sensitivity per parameter, each of `neq` values.  With
    /// no parameters there is no sensitivity, and `s0_lens` is not used.
    pub fn with_forward_sensitivity(self, num_params: usize, s0_lens: Vec<usize>) -> (r: IdasOptions)
        requires
            num_params == 0 || sensitivity_fits(num_params, s0_lens@, self.neq),
        ensures
            r == (IdasOptions { num_params, s0_lens, ..self }),
    {
        IdasOptions { num_params, s0_lens, ..self }
    }

    /// The number of sensitivity vectors the solver holds.
    pub open spec fn spec_num_sens(&self) -> nat {
        if self.num_params > 0 {
            self.s0_lens.len() as nat
        } else {
            0
        }
    }

    /// The number of sensitivity vectors the solver holds: one per initial
    /// sensitivity when there is at least one parameter, none otherwise.
    pub fn num_sens(&self) -> (r: usize)
        ensures
            r == self.spec_num_sens(),
    {
        if self.num_params > 0 {
            self.s0_lens.len()
        } else {
            0
        }
    }

    /// The calls that create the solver, in order.
    pub fn build_calls(&self) -> (r: Vec<SundialsCall>)
        requires
            self.wf(),
        ensures
            r@ == idas_build_calls(*self),
    {
        let mut v: Vec<SundialsCall> = Vec::new();
        push_ida_core_calls(&mut v, self.neq);
        push_max_steps_calls(&mut v, self.max_steps);
        let ghost before = v@;
        if self.num_params > 0 {
            push_idas_sens_vector_calls(&mut v, &self.s0_lens, self.neq);
            v.push(SundialsCall::SensInit { num_params: self.num_params, method_code: IDA_SIMULTANEOUS });
            v.push(SundialsCall::SensEETolerances);
            if self.s0_lens.len() > 0 {
                v.push(SundialsCall::SetSensParams);
            }
        }
        assert(v@ =~= before + idas_sensitivity_calls(*self));
        assert(v@ =~= idas_build_calls(*self));
        v
    }
}

} // verus!
