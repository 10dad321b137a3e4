//! The decisions of a run: which action comes next, and when to stop.
use vstd::prelude::*;
use crate::disk::{perform, refusal, Disk};
use crate::error::{failure, failure_of, Cause, ErrorView, ProvisioningError};
use crate::plan::{Action, ActionView};

verus! {

/// What a run does next.
#[derive(Debug, PartialEq, Eq)]
pub enum Step {
    /// Perform the action at `index` of the plan.
    Perform { index: usize },
    /// Every action succeeded.
    Finished,
    /// An action failed: the run stops here, and nothing is undone.
    Failed { error: ProvisioningError },
}

/// The mathematical value of a [`Step`].
pub enum StepView {
    Perform { index: int },
    Finished,
    Failed { error: ErrorView },
}

impl View for Step {
    type V = StepView;

    open spec fn view(&self) -> StepView {
        match self {
            Step::Perform { index } => StepView::Perform { index: *index as int },
            Step::Finished => StepView::Finished,
            Step::Failed { error } => StepView::Failed { error: error@ },
        }
    }
}

/// The next step of a run of which `done` actions succeeded. `last` is the
/// answer to the action at `done`, where it was tried and refused. A
/// refusal ends the run with the error of that action; no later action is
/// handed out. Without one the action at `done` is next, until none is
/// left.
pub open spec fn next_step(plan: Seq<ActionView>, done: int, last: Option<Cause>) -> StepView {
    if 0 <= done < plan.len() {
        match last {
            Some(cause) => StepView::Failed { error: failure_of(plan[done], cause) },
            None => StepView::Perform { index: done },
        }
    } else {
        StepView::Finished
    }
}

/// Decides the next step of a run, as `next_step` says.
pub fn step(plan: &Vec<Action>, done: usize, last: Option<Cause>) -> (r: Step)
    ensures
        r@ == next_step(crate::plan::plan_view(plan@), done as int, last),
{
    if done < plan.len() {
        match last {
            Some(cause) => Step::Failed { error: failure(&plan[done], cause) },
            None => Step::Perform { index: done },
        }
    } else {
        Step::Finished
    }
}

/// The driver and the model agree: where the model refuses the action at
/// `done` for some cause, the driver that is handed that cause stops with
/// the error that the model reports, and where the model refuses nothing
/// the driver hands out that action.
pub proof fn step_follows_model(d: Disk, plan: Seq<ActionView>, done: int, body: Option<Seq<u8>>)
    requires
        0 <= done < plan.len(),
    ensures
        match perform(d, plan[done], body) {
            Err(error) => next_step(plan, done, refusal(d, plan[done], body)) == (
            StepView::Failed { error }),
            Ok(_) => next_step(plan, done, refusal(d, plan[done], body)) == (StepView::Perform {
                index: done,
            }),
        },
{
}

} // verus!
