//! Carrying out a plan: the caller performs the next call, reports what it
//! gave back, and stops at the first failure.

use vstd::prelude::*;

use crate::calls::{outcome_result, spec_outcome_result, CallOutcome, WindowCall};
use crate::error::Error;

verus! {

/// How far a run has got: the number of calls that succeeded, and the error of
/// the call that failed, if one did.
pub type RunState = (nat, Option<Error>);

/// Whether no further call is to be made.
pub open spec fn run_finished(calls: Seq<WindowCall>, state: RunState) -> bool {
    state.1 is Some || state.0 >= calls.len()
}

/// The state after the next call gave back `outcome`.
pub open spec fn run_step(calls: Seq<WindowCall>, state: RunState, outcome: CallOutcome) -> RunState {
    if run_finished(calls, state) {
        state
    } else {
        match spec_outcome_result(calls[state.0 as int], outcome) {
            Ok(_) => ((state.0 + 1) as nat, None),
            Err(e) => (state.0, Some(e)),
        }
    }
}

/// The state after the outcomes were reported, one after the other, from the start.
pub open spec fn run_all(calls: Seq<WindowCall>, outcomes: Seq<CallOutcome>) -> RunState
    decreases outcomes.len(),
{
    if outcomes.len() == 0 {
        (0, None)
    } else {
        run_step(calls, run_all(calls, outcomes.drop_last()), outcomes.last())
    }
}

/// A plan being carried out.
pub struct PlanRun {
    calls: Vec<WindowCall>,
    next: usize,
    failure: Option<Error>,
}

impl PlanRun {
    /// The calls of the plan.
    pub closed spec fn calls(&self) -> Seq<WindowCall> {
        self.calls@
    }

    /// How far the run has got.
    pub closed spec fn state(&self) -> RunState {
        (self.next as nat, self.failure)
    }

    /// Starts carrying out the calls, none of them made yet.
    pub fn new(calls: Vec<WindowCall>) -> (r: Self)
        ensures
            r.calls() == calls@,
            r.state() == (0nat, None::<Error>),
    {
        PlanRun { calls, next: 0, failure: None }
    }

    /// The call to make next, or none when the run is over.
    pub fn next_call(&self) -> (r: Option<WindowCall>)
        ensures
            r == (if run_finished(self.calls(), self.state()) {
                None
            } else {
                Some(self.calls()[self.state().0 as int])
            }),
    {
        if self.failure.is_some() || self.next >= self.calls.len() {
            None
        } else {
            Some(self.calls[self.next])
        }
    }

    /// Reports what the call just made gave back. Once the run is over,
    /// reports change nothing.
    pub fn record(&mut self, outcome: CallOutcome)
        ensures
            final(self).calls() == old(self).calls(),
            final(self).state() == run_step(old(self).calls(), old(self).state(), outcome),
    {
        if self.failure.is_some() || self.next >= self.calls.len() {
            return;
        }
        let call = self.calls[self.next];
        match outcome_result(&call, outcome) {
            Ok(()) => {
                self.next = self.next + 1;
            },
            Err(e) => {
                self.failure = Some(e);
            },
        }
    }

    /// The result of the run: the error of the call that failed, if one did.
    pub fn finish(self) -> (r: Result<(), Error>)
        ensures
            r == (match self.state().1 {
                Some(e) => Err(e),
                None => Ok(()),
            }),
    {
        match self.failure {
            Some(e) => Err(e),
            None => Ok(()),
        }
    }
}

/// Whether the first `n` calls all succeed with the reported outcomes.
pub open spec fn all_succeed(calls: Seq<WindowCall>, outcomes: Seq<CallOutcome>, n: int) -> bool {
    forall|i: int| 0 <= i < n ==> (#[trigger] spec_outcome_result(calls[i], outcomes[i])) is Ok
}

/// A run stops at the first call that fails and reports that call's error;
/// when every call reported so far succeeded, the run has made exactly those
/// calls and has no error.
pub proof fn lemma_run_stops_at_first_failure(calls: Seq<WindowCall>, outcomes: Seq<CallOutcome>)
    requires
        outcomes.len() <= calls.len(),
    ensures
        all_succeed(calls, outcomes, outcomes.len() as int) ==> run_all(calls, outcomes) == (
        outcomes.len(), None::<Error>),
        forall|k: int|
            0 <= k < outcomes.len() && all_succeed(calls, outcomes, k) && (#[trigger] spec_outcome_result(
                calls[k],
                outcomes[k],
            )) is Err ==> run_all(calls, outcomes) == (k as nat, Some(
                spec_outcome_result(calls[k], outcomes[k])->Err_0,
            )),
    decreases outcomes.len(),
{
    if outcomes.len() > 0 {
        let prefix = outcomes.drop_last();
        let n = outcomes.len() - 1;
        lemma_run_stops_at_first_failure(calls, prefix);
        assert forall|i: int| 0 <= i < n implies prefix[i] == outcomes[i] by {}
        assert(all_succeed(calls, outcomes, n) ==> all_succeed(calls, prefix, n)) by {
            if all_succeed(calls, outcomes, n) {
                assert forall|i: int| 0 <= i < n implies (#[trigger] spec_outcome_result(
                    calls[i],
                    prefix[i],
                )) is Ok by {
                    assert(spec_outcome_result(calls[i], outcomes[i]) is Ok);
                }
            }
        }
        assert forall|k: int|
            0 <= k < outcomes.len() && all_succeed(calls, outcomes, k) && (#[trigger] spec_outcome_result(
                calls[k],
                outcomes[k],
            )) is Err implies run_all(calls, outcomes) == (k as nat, Some(
            spec_outcome_result(calls[k], outcomes[k])->Err_0,
        )) by {
            if k < n {
                assert(all_succeed(calls, prefix, k)) by {
                    assert forall|i: int| 0 <= i < k implies (#[trigger] spec_outcome_result(
                        calls[i],
                        prefix[i],
                    )) is Ok by {
                        assert(spec_outcome_result(calls[i], outcomes[i]) is Ok);
                    }
                }
                assert(spec_outcome_result(calls[k], prefix[k]) is Err);
            } else {
                assert(all_succeed(calls, prefix, n)) by {
                    assert forall|i: int| 0 <= i < n implies (#[trigger] spec_outcome_result(
                        calls[i],
                        prefix[i],
                    )) is Ok by {
                        assert(spec_outcome_result(calls[i], outcomes[i]) is Ok);
                    }
                }
            }
        }
        if all_succeed(calls, outcomes, outcomes.len() as int) {
            assert(spec_outcome_result(calls[n], outcomes[n]) is Ok);
        }
    }
}

} // verus!
