//! Runs of outside steps that stop at the first failure.
//!
//! A decision that calls for several outside steps in a row is a [`StepRun`]:
//! the runtime asks for the current step, performs it, and reports whether it
//! succeeded.

use vstd::prelude::*;

verus! {

/// State of a run: its steps, how many have succeeded, and whether one has
/// failed.
#[verifier::ext_equal]
pub struct RunView<S> {
    pub steps: Seq<S>,
    pub done: nat,
    pub failed: bool,
}

impl<S> RunView<S> {
    pub open spec fn wf(self) -> bool {
        self.done <= self.steps.len() && (self.failed ==> self.done < self.steps.len())
    }

    /// The step to perform next, if any.
    pub open spec fn current(self) -> Option<S> {
        if !self.failed && self.done < self.steps.len() {
            Some(self.steps[self.done as int])
        } else {
            None
        }
    }

    /// All the steps have succeeded.
    pub open spec fn complete(self) -> bool {
        self.done == self.steps.len()
    }

    /// The run after the current step's outcome.
    pub open spec fn reported(self, ok: bool) -> RunView<S> {
        if self.current() is None {
            self
        } else if ok {
            RunView { done: self.done + 1, ..self }
        } else {
            RunView { failed: true, ..self }
        }
    }

    /// The run after a series of outcomes.
    pub open spec fn after(self, outcomes: Seq<bool>) -> RunView<S>
        decreases outcomes.len(),
    {
        if outcomes.len() == 0 {
            self
        } else {
            self.after(outcomes.drop_last()).reported(outcomes.last())
        }
    }
}

/// A run of steps.
pub struct StepRun<S> {
    steps: Vec<S>,
    done: usize,
    failed: bool,
}

impl<S> StepRun<S> {
    pub closed spec fn view(&self) -> RunView<S> {
        RunView { steps: self.steps@, done: self.done as nat, failed: self.failed }
    }

    /// A run of these steps, none of them performed yet.
    pub fn new(steps: Vec<S>) -> (r: StepRun<S>)
        ensures
            r@ == (RunView { steps: steps@, done: 0, failed: false }),
            r@.wf(),
    {
        StepRun { steps, done: 0, failed: false }
    }

    /// The step to perform next, if any.
    pub fn current(&self) -> (s: Option<&S>)
        ensures
            match s {
                Some(step) => self@.current() == Some(*step),
                None => self@.current() is None,
            },
    {
        if !self.failed && self.done < self.steps.len() {
            Some(&self.steps[self.done])
        } else {
            None
        }
    }

    /// Report the outcome of the current step.
    pub fn report(&mut self, ok: bool)
        requires
            old(self)@.wf(),
        ensures
            final(self)@ == old(self)@.reported(ok),
            final(self)@.wf(),
    {
        if !self.failed && self.done < self.steps.len() {
            if ok {
                self.done = self.done + 1;
            } else {
                self.failed = true;
            }
        }
    }

    /// Whether all the steps have succeeded.
    pub fn is_complete(&self) -> (b: bool)
        ensures
            b == self@.complete(),
    {
        self.done == self.steps.len()
    }
}

/// The run failed at the step of this index.
pub open spec fn stopped_at<S>(end: RunView<S>, k: int) -> bool {
    end.failed && end.done == k
}

/// A run performs its steps in order without leaving one out, and none after
/// the first failure: after any outcomes the steps performed are a prefix, which
/// ends where the first failure is, or with the outcomes where there is none.
pub proof fn law_run_performs_prefix<S>(steps: Seq<S>, outcomes: Seq<bool>)
    ensures
        ({
            let start = RunView { steps, done: 0, failed: false };
            let end = start.after(outcomes);
            &&& end.steps == steps
            &&& end.wf()
            &&& end.done <= outcomes.len()
            &&& end.failed ==> end.current() is None
            &&& (forall|i: int| 0 <= i < outcomes.len() ==> outcomes[i]) ==> end.done == (
            if outcomes.len() <= steps.len() {
                outcomes.len()
            } else {
                steps.len()
            }) && !end.failed
            &&& forall|k: int|
                0 <= k < outcomes.len() && k < steps.len() && !outcomes[k] && (forall|i: int|
                    0 <= i < k ==> outcomes[i]) ==> #[trigger] stopped_at(end, k)
        }),
    decreases outcomes.len(),
{
    if outcomes.len() > 0 {
        law_run_performs_prefix(steps, outcomes.drop_last());
        let front = outcomes.drop_last();
        if forall|i: int| 0 <= i < outcomes.len() ==> outcomes[i] {
            assert forall|i: int| 0 <= i < front.len() implies front[i] by {
                assert(front[i] == outcomes[i]);
            }
            assert(outcomes[outcomes.len() - 1]);
        }
        let start = RunView { steps, done: 0, failed: false };
        let end = start.after(outcomes);
        assert forall|k: int|
            0 <= k < outcomes.len() && k < steps.len() && !outcomes[k] && (forall|i: int|
                0 <= i < k ==> outcomes[i]) implies #[trigger] stopped_at(end, k) by {
            if k < front.len() {
                assert(front[k] == outcomes[k]);
                assert forall|i: int| 0 <= i < k implies front[i] by {
                    assert(front[i] == outcomes[i]);
                }
                assert(stopped_at(start.after(front), k));
            } else {
                assert forall|i: int| 0 <= i < front.len() implies front[i] by {
                    assert(front[i] == outcomes[i]);
                }
            }
        }
    }
}

/// The step to perform next is the first that has not succeeded, as long as none
/// has failed. A success moves on by one step and a failure ends the run.
pub proof fn law_steps_one_at_a_time<S>(run: RunView<S>)
    requires
        run.wf(),
    ensures
        run.complete() <==> run.done == run.steps.len(),
        run.current() is Some <==> !run.failed && run.done < run.steps.len(),
        run.current() matches Some(step) ==> {
            &&& step == run.steps[run.done as int]
            &&& run.reported(true).done == run.done + 1
            &&& !run.reported(true).failed
            &&& run.reported(true).steps == run.steps
            &&& run.reported(false).failed
            &&& run.reported(false).done == run.done
            &&& run.reported(false).steps == run.steps
            &&& run.reported(false).current() is None
        },
        run.current() is None ==> run.reported(true) == run && run.reported(false) == run,
{
}

} // verus!
