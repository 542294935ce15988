//! Running a planned sequence of SUNDIALS calls.
//!
//! Every operation of a solver (creating it, stepping it, reading its
//! statistics or sensitivities) is a sequence of calls that stops at the first
//! failure.  [`CallSequence`] decides which call comes next and what the whole
//! operation returns; whoever holds the C objects performs each call and
//! reports its [`CallOutcome`].

use vstd::prelude::*;

use crate::calls::{call_failure, failure, CallOutcome, SolverKind, SundialsCall};
use crate::error::SundialsError;

verus! {

/// What a sequence of calls returns once `outcomes[i]` is what the `i`-th
/// call returned: `None` while calls are still owed, otherwise the error of
/// the first call that failed, or `Ok(())` when every call succeeded.
pub open spec fn sequence_result(
    kind: SolverKind,
    calls: Seq<SundialsCall>,
    outcomes: Seq<CallOutcome>,
) -> Option<Result<(), SundialsError>>
    decreases calls.len(),
{
    if calls.len() == 0 {
        Some(Ok(()))
    } else if outcomes.len() == 0 {
        None
    } else {
        match call_failure(kind, calls[0], outcomes[0]) {
            Some(e) => Some(Err(e)),
            None => sequence_result(kind, calls.drop_first(), outcomes.drop_first()),
        }
    }
}

/// After a run of successful calls, the rest of the sequence decides.
proof fn lemma_skip_successes(
    kind: SolverKind,
    calls: Seq<SundialsCall>,
    outcomes: Seq<CallOutcome>,
    k: int,
)
    requires
        0 <= k <= calls.len(),
        k <= outcomes.len(),
        forall|i: int| 0 <= i < k ==> (#[trigger] call_failure(kind, calls[i], outcomes[i])) is None,
    ensures
        sequence_result(kind, calls, outcomes) == sequence_result(kind, calls.skip(k), outcomes.skip(k)),
    decreases k,
{
    if k == 0 {
        assert(calls.skip(0) =~= calls);
        assert(outcomes.skip(0) =~= outcomes);
    } else {
        assert(call_failure(kind, calls[0], outcomes[0]) is None);
        let c = calls.drop_first();
        let o = outcomes.drop_first();
        assert forall|i: int| 0 <= i < k - 1 implies (#[trigger] call_failure(kind, c[i], o[i])) is None by {
            assert(c[i] == calls[i + 1]);
            assert(o[i] == outcomes[i + 1]);
            assert(call_failure(kind, calls[i + 1], outcomes[i + 1]) is None);
        }
        lemma_skip_successes(kind, c, o, k - 1);
        assert(c.skip(k - 1) =~= calls.skip(k));
        assert(o.skip(k - 1) =~= outcomes.skip(k));
    }
}

/// An operation succeeds exactly when every one of its calls succeeds.
pub proof fn law_success_iff_every_call_succeeds(
    kind: SolverKind,
    calls: Seq<SundialsCall>,
    outcomes: Seq<CallOutcome>,
)
    requires
        outcomes.len() >= calls.len(),
    ensures
        sequence_result(kind, calls, outcomes) == Some(Ok::<(), SundialsError>(()))
            <==> forall|i: int| 0 <= i < calls.len() ==> (#[trigger] call_failure(kind, calls[i], outcomes[i])) is None,
    decreases calls.len(),
{
    if calls.len() > 0 {
        let c = calls.drop_first();
        let o = outcomes.drop_first();
        law_success_iff_every_call_succeeds(kind, c, o);
        if call_failure(kind, calls[0], outcomes[0]) is None {
            assert((forall|i: int| 0 <= i < calls.len() ==> (#[trigger] call_failure(kind, calls[i], outcomes[i])) is None)
                <==> (forall|i: int| 0 <= i < c.len() ==> (#[trigger] call_failure(kind, c[i], o[i])) is None)) by {
                if forall|i: int| 0 <= i < c.len() ==> (#[trigger] call_failure(kind, c[i], o[i])) is None {
                    assert forall|i: int| 0 <= i < calls.len() implies (#[trigger] call_failure(kind, calls[i], outcomes[i])) is None by {
                        if i > 0 {
                            assert(call_failure(kind, c[i - 1], o[i - 1]) is None);
                        }
                    }
                }
                if forall|i: int| 0 <= i < calls.len() ==> (#[trigger] call_failure(kind, calls[i], outcomes[i])) is None {
                    assert forall|i: int| 0 <= i < c.len() implies (#[trigger] call_failure(kind, c[i], o[i])) is None by {
                        assert(call_failure(kind, calls[i + 1], outcomes[i + 1]) is None);
                    }
                }
            }
        }
    }
}

/// A failing call ends the operation: when the calls before it succeeded,
/// the operation returns the error of that call, whatever comes after it.
pub proof fn law_first_failure_is_the_error(
    kind: SolverKind,
    calls: Seq<SundialsCall>,
    outcomes: Seq<CallOutcome>,
    i: int,
)
    requires
        0 <= i < calls.len(),
        i < outcomes.len(),
        forall|j: int| 0 <= j < i ==> (#[trigger] call_failure(kind, calls[j], outcomes[j])) is None,
        call_failure(kind, calls[i], outcomes[i]) is Some,
    ensures
        sequence_result(kind, calls, outcomes) == Some(Err::<(), SundialsError>(call_failure(kind, calls[i], outcomes[i]).unwrap())),
{
    lemma_skip_successes(kind, calls, outcomes, i);
    assert(calls.skip(i)[0] == calls[i]);
    assert(outcomes.skip(i)[0] == outcomes[i]);
}

/// Every operation has a result once each of its calls has been reported.
pub proof fn law_result_after_all_calls(
    kind: SolverKind,
    calls: Seq<SundialsCall>,
    outcomes: Seq<CallOutcome>,
)
    requires
        outcomes.len() >= calls.len(),
    ensures
        sequence_result(kind, calls, outcomes) is Some,
    decreases calls.len(),
{
    if calls.len() > 0 {
        law_result_after_all_calls(kind, calls.drop_first(), outcomes.drop_first());
    }
}

/// Once an operation has a result, outcomes reported later do not change it.
pub proof fn law_result_is_final(
    kind: SolverKind,
    calls: Seq<SundialsCall>,
    outcomes: Seq<CallOutcome>,
    later: Seq<CallOutcome>,
)
    requires
        sequence_result(kind, calls, outcomes) is Some,
    ensures
        sequence_result(kind, calls, outcomes + later) == sequence_result(kind, calls, outcomes),
    decreases calls.len(),
{
    if calls.len() > 0 {
        let all = outcomes + later;
        assert(all[0] == outcomes[0]);
        if call_failure(kind, calls[0], outcomes[0]) is None {
            assert(all.drop_first() =~= outcomes.drop_first() + later);
            law_result_is_final(kind, calls.drop_first(), outcomes.drop_first(), later);
        }
    }
}

/// Every creation begins by making the SUNDIALS context; when that fails
/// the creation fails with `Memory("SUNContext_Create")` and nothing else is
/// attempted.
pub proof fn law_context_failure_ends_creation(
    kind: SolverKind,
    calls: Seq<SundialsCall>,
    outcomes: Seq<CallOutcome>,
)
    requires
        calls.len() > 0,
        calls[0] == SundialsCall::CreateContext,
        outcomes.len() > 0,
        outcomes[0].code != 0 || outcomes[0].null,
    ensures
        sequence_result(kind, calls, outcomes) == Some(Err::<(), SundialsError>(SundialsError::Memory("SUNContext_Create"))),
        sequence_result(kind, calls, outcomes.take(1)) == sequence_result(kind, calls, outcomes),
{
    law_first_failure_is_the_error(kind, calls, outcomes, 0);
    law_first_failure_is_the_error(kind, calls, outcomes.take(1), 0);
}

/// An operation in progress: the planned calls, how many of them succeeded,
/// and the error of the call that failed, if one did.
pub struct CallSequence {
    kind: SolverKind,
    calls: Vec<SundialsCall>,
    progress: Progress,
}

/// How far an operation has come.
struct Progress {
    /// The number of calls that succeeded.
    done: usize,
    /// The error of the call that failed.
    error: Option<SundialsError>,
    /// Every outcome reported so far.
    reported: Ghost<Seq<CallOutcome>>,
}

impl CallSequence {
    #[verifier::type_invariant]
    spec fn well_formed(self) -> bool {
        let p = self.progress;
        &&& p.done <= self.calls.len()
        &&& p.reported@.len() == p.done + (if p.error is Some { 1int } else { 0int })
        &&& p.error is Some ==> p.done < self.calls.len()
        &&& forall|i: int|
            0 <= i < p.done ==> (#[trigger] call_failure(self.kind, self.calls@[i], p.reported@[i])) is None
        &&& p.error is Some ==> call_failure(self.kind, self.calls@[p.done as int], p.reported@[p.done as int])
            == p.error
    }

    /// The solver whose calls these are.
    pub closed spec fn kind(self) -> SolverKind {
        self.kind
    }

    /// The planned calls.
    pub closed spec fn calls(self) -> Seq<SundialsCall> {
        self.calls@
    }

    /// The outcomes reported so far, in call order.
    pub closed spec fn reported(self) -> Seq<CallOutcome> {
        self.progress.reported@
    }

    /// No result yet: a call is owed.
    pub open spec fn is_pending(self) -> bool {
        sequence_result(self.kind(), self.calls(), self.reported()) is None
    }

    proof fn lemma_state(self)
        requires
            self.well_formed(),
        ensures
            sequence_result(self.kind, self.calls@, self.progress.reported@) == (if self.progress.error is Some {
                Some(Err(self.progress.error.unwrap()))
            } else if self.progress.done == self.calls.len() {
                Some(Ok(()))
            } else {
                None::<Result<(), SundialsError>>
            }),
    {
        let p = self.progress;
        let k = p.done as int;
        lemma_skip_successes(self.kind, self.calls@, p.reported@, k);
        let c = self.calls@.skip(k);
        let o = p.reported@.skip(k);
        if p.error is Some {
            assert(c[0] == self.calls@[k]);
            assert(o[0] == p.reported@[k]);
        } else if p.done == self.calls.len() {
            assert(c.len() == 0);
        } else {
            assert(o.len() == 0);
        }
    }

    /// Starts an operation of `kind` that makes `calls` in order.
    pub fn new(kind: SolverKind, calls: Vec<SundialsCall>) -> (s: CallSequence)
        ensures
            s.kind() == kind,
            s.calls() == calls@,
            s.reported() == Seq::<CallOutcome>::empty(),
    {
        CallSequence { kind, calls, progress: Progress { done: 0, error: None, reported: Ghost(Seq::empty()) } }
    }

    /// The call to make next; `None` once the operation has a result.
    pub fn next_call(&self) -> (r: Option<SundialsCall>)
        ensures
            self.is_pending() ==> self.reported().len() < self.calls().len()
                && r == Some(self.calls()[self.reported().len() as int]),
            !self.is_pending() ==> r is None,
    {
        proof {
            use_type_invariant(self);
            self.lemma_state();
        }
        if self.progress.error.is_none() && self.progress.done < self.calls.len() {
            Some(self.calls[self.progress.done])
        } else {
            None
        }
    }

    /// Records what the call returned by [`CallSequence::next_call`] returned.
    pub fn report(&mut self, outcome: CallOutcome)
        requires
            old(self).is_pending(),
        ensures
            final(self).kind() == old(self).kind(),
            final(self).calls() == old(self).calls(),
            final(self).reported() == old(self).reported().push(outcome),
            old(self).reported().len() < old(self).calls().len(),
            sequence_result(final(self).kind(), final(self).calls(), final(self).reported()) == match call_failure(
                old(self).kind(),
                old(self).calls()[old(self).reported().len() as int],
                outcome,
            ) {
                Some(e) => Some(Err(e)),
                None => if old(self).reported().len() + 1 == old(self).calls().len() {
                    Some(Ok(()))
                } else {
                    None
                },
            },
    {
        proof {
            use_type_invariant(&*self);
            self.lemma_state();
        }
        let done = self.progress.done;
        let call = self.calls[done];
        let ghost old_reported = self.progress.reported@;
        let ghost new_reported = old_reported.push(outcome);
        match failure(self.kind, call, outcome) {
            Some(e) => {
                self.progress = Progress { done, error: Some(e), reported: Ghost(new_reported) };
            },
            None => {
                proof {
                    assert forall|i: int| 0 <= i < done + 1 implies
                        (#[trigger] call_failure(self.kind, self.calls@[i], new_reported[i])) is None by {
                        if i < done {
                            assert(new_reported[i] == old_reported[i]);
                        }
                    }
                }
                self.progress = Progress { done: done + 1, error: None, reported: Ghost(new_reported) };
            },
        }
        proof {
            use_type_invariant(&*self);
            self.lemma_state();
        }
    }

    /// What the operation returns: `None` while a call is owed.
    pub fn result(&self) -> (r: Option<Result<(), SundialsError>>)
        ensures
            r == sequence_result(self.kind(), self.calls(), self.reported()),
    {
        proof {
            use_type_invariant(self);
            self.lemma_state();
        }
        match self.progress.error {
            Some(e) => Some(Err(e)),
            None => if self.progress.done == self.calls.len() {
                Some(Ok(()))
            } else {
                None
            },
        }
    }
}

} // verus!
