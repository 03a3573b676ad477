//! The bookkeeping of one run through the steps of a plan.
//!
//! The steps are handed out in order. A step is handed out only when every
//! step before it was reported as done. The first failure ends the run: the
//! run then hands out no step, and stays aborted whatever is reported.

use crate::materialize::{Step, StepView};
use vstd::prelude::*;

verus! {

/// How far a run has come.
#[derive(Clone, Copy, Debug, PartialEq, Eq, Structural)]
pub enum Status {
    /// A step waits to be taken.
    Pending,
    /// Every step was taken and succeeded.
    Complete,
    /// A step failed. The steps before it were taken, those after it never
    /// will be.
    Aborted,
}

/// A run as plain values.
pub struct RunView {
    /// The steps of the plan.
    pub steps: Seq<StepView>,
    /// How many steps succeeded.
    pub done: nat,
    /// Whether the step after those failed.
    pub failed: bool,
}

impl RunView {
    /// A run that has taken no step yet.
    pub open spec fn fresh(steps: Seq<StepView>) -> RunView {
        RunView { steps, done: 0, failed: false }
    }

    /// The step to take next, if the run goes on.
    pub open spec fn pending(self) -> Option<StepView> {
        if !self.failed && self.done < self.steps.len() {
            Some(self.steps[self.done as int])
        } else {
            None
        }
    }

    /// The run after the pending step was reported as a success or a
    /// failure. A run without a pending step stays as it is.
    pub open spec fn advanced(self, success: bool) -> RunView {
        if self.pending() is None {
            self
        } else if success {
            RunView { done: self.done + 1, ..self }
        } else {
            RunView { failed: true, ..self }
        }
    }

    /// The run after the reports `events`, taken one after the other.
    pub open spec fn after(self, events: Seq<bool>) -> RunView
        decreases events.len(),
    {
        if events.len() == 0 {
            self
        } else {
            self.after(events.drop_last()).advanced(events.last())
        }
    }

    /// How far the run has come.
    pub open spec fn status(self) -> Status {
        if self.failed {
            Status::Aborted
        } else if self.done < self.steps.len() {
            Status::Pending
        } else {
            Status::Complete
        }
    }
}

/// The first failure is final: an aborted run hands out no step, and no
/// report changes it.
pub proof fn lemma_aborted_stays(run: RunView, events: Seq<bool>)
    requires
        run.failed,
    ensures
        run.pending() is None,
        run.after(events) == run,
    decreases events.len(),
{
    if events.len() > 0 {
        lemma_aborted_stays(run, events.drop_last());
    }
}

/// A fresh run that sees `k` successes, no more than it has steps, has
/// taken exactly the first `k` steps and is complete exactly when none is
/// left.
pub proof fn lemma_successes_advance(steps: Seq<StepView>, events: Seq<bool>)
    requires
        events.len() <= steps.len(),
        forall|i: int| 0 <= i < events.len() ==> events[i],
    ensures
        RunView::fresh(steps).after(events) == (RunView {
            steps,
            done: events.len(),
            failed: false,
        }),
        RunView::fresh(steps).after(events).status() == Status::Complete <==> events.len()
            == steps.len(),
    decreases events.len(),
{
    if events.len() > 0 {
        lemma_successes_advance(steps, events.drop_last());
    }
}

/// A fresh run whose first failure is report number `k` has taken exactly
/// the `k` steps before it, and is aborted at step `k` whatever follows.
pub proof fn lemma_first_failure_aborts(steps: Seq<StepView>, events: Seq<bool>, k: int)
    requires
        0 <= k < events.len(),
        k < steps.len(),
        !events[k],
        forall|i: int| 0 <= i < k ==> events[i],
    ensures
        RunView::fresh(steps).after(events) == (RunView { steps, done: k as nat, failed: true }),
    decreases events.len(),
{
    let before = events.drop_last();
    if events.len() == k + 1 {
        lemma_successes_advance(steps, before);
    } else {
        lemma_first_failure_aborts(steps, before, k);
    }
}

/// One run through the steps of a plan.
#[derive(Debug)]
pub struct Run {
    steps: Vec<Step>,
    done: usize,
    failed: bool,
}

impl View for Run {
    type V = RunView;

    closed spec fn view(&self) -> RunView {
        RunView { steps: self.steps.deep_view(), done: self.done as nat, failed: self.failed }
    }
}

impl Run {
    #[verifier::type_invariant]
    spec fn in_range(self) -> bool {
        &&& self.done <= self.steps.len()
        &&& self.failed ==> self.done < self.steps.len()
    }

    /// A run through `steps` that has taken none yet.
    pub fn new(steps: Vec<Step>) -> (run: Self)
        ensures
            run@ == RunView::fresh(steps.deep_view()),
    {
        Run { steps, done: 0, failed: false }
    }

    /// The step to take next. None when the run is complete or aborted.
    pub fn next_step(&self) -> (step: Option<&Step>)
        ensures
            step.deep_view() == self@.pending(),
    {
        proof {
            use_type_invariant(self);
        }
        if !self.failed && self.done < self.steps.len() {
            Some(&self.steps[self.done])
        } else {
            None
        }
    }

    /// Takes the report on the pending step: done, or failed. Without a
    /// pending step the report changes nothing.
    pub fn record(&mut self, success: bool)
        ensures
            final(self)@ == old(self)@.advanced(success),
    {
        proof {
            use_type_invariant(&*self);
        }
        if !self.failed && self.done < self.steps.len() {
            if success {
                self.done = self.done + 1;
            } else {
                self.failed = true;
            }
        }
    }

    /// How far the run has come.
    pub fn status(&self) -> (status: Status)
        ensures
            status == self@.status(),
    {
        if self.failed {
            Status::Aborted
        } else if self.done < self.steps.len() {
            Status::Pending
        } else {
            Status::Complete
        }
    }

    /// How many steps were taken and succeeded.
    pub fn completed(&self) -> (count: usize)
        ensures
            count == self@.done,
            count <= self@.steps.len(),
    {
        proof {
            use_type_invariant(self);
        }
        self.done
    }

    /// How many steps the plan has.
    pub fn total(&self) -> (count: usize)
        ensures
            count == self@.steps.len(),
    {
        self.steps.len()
    }

    /// The step that failed, if the run is aborted.
    pub fn failed_step(&self) -> (step: Option<&Step>)
        ensures
            step.deep_view() == (if self@.failed {
                Some(self@.steps[self@.done as int])
            } else {
                None
            }),
            self@.failed ==> self@.done < self@.steps.len(),
    {
        proof {
            use_type_invariant(self);
        }
        if self.failed {
            Some(&self.steps[self.done])
        } else {
            None
        }
    }
}

} // verus!
