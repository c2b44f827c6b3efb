//! The decision that follows one run of a step.
use vstd::prelude::*;
use crate::task::Outcome;

verus! {

/// What came of one run of a step, its successor already encoded.
pub enum StepReport {
    /// The stored step could not be decoded, or its successor could not be
    /// encoded; the text says why.
    Broken(String),
    /// The step finished the task.
    Done,
    /// The step handed over to `step`, to run after `delay` microseconds.
    Next { step: String, delay: u64 },
    /// The step failed with the given error text.
    Failed(String),
}

/// The outcome that `report` leads to, for a step tried `tried` times before
/// this run, allowed `retry_limit` retries, `retry_delay` microseconds apart.
pub open spec fn outcome_spec(report: StepReport, tried: int, retry_limit: int, retry_delay: u64) -> Outcome {
    match report {
        StepReport::Broken(e) => Outcome::Fail { error: e },
        StepReport::Done => Outcome::Complete,
        StepReport::Next { step, delay } => Outcome::NextStep { step, delay },
        StepReport::Failed(e) => if tried < retry_limit {
            Outcome::Retry { delay: retry_delay }
        } else {
            Outcome::Fail { error: e }
        },
    }
}

/// Decides what a run of a step does to its task: a finished task completes,
/// a successor replaces the step, and an error is retried while `tried` is
/// below `retry_limit`, else it parks the task, as does a step that cannot be
/// decoded or encoded.
pub fn decide_outcome(report: StepReport, tried: i32, retry_limit: i32, retry_delay: u64) -> (r: Outcome)
    ensures
        r == outcome_spec(report, tried as int, retry_limit as int, retry_delay),
        r is Retry ==> tried < retry_limit,
        report is Broken ==> r is Fail,
{
    match report {
        StepReport::Broken(e) => Outcome::Fail { error: e },
        StepReport::Done => Outcome::Complete,
        StepReport::Next { step, delay } => Outcome::NextStep { step, delay },
        StepReport::Failed(e) => if tried < retry_limit {
            Outcome::Retry { delay: retry_delay }
        } else {
            Outcome::Fail { error: e }
        },
    }
}

/// A step that cannot be decoded or encoded parks its task with the reason,
/// whatever its attempt count and retry settings: it is never retried.
pub proof fn lemma_broken_step_parks(e: String, tried: int, retry_limit: int, retry_delay: u64)
    ensures
        outcome_spec(StepReport::Broken(e), tried, retry_limit, retry_delay) == (Outcome::Fail { error: e }),
{
}

/// A failing step is retried while its attempt count is below the limit and
/// parked with its error once the count reaches it.
pub proof fn lemma_retry_bound(e: String, tried: int, retry_limit: int, retry_delay: u64)
    ensures
        tried < retry_limit ==> outcome_spec(StepReport::Failed(e), tried, retry_limit, retry_delay)
            == (Outcome::Retry { delay: retry_delay }),
        tried >= retry_limit ==> outcome_spec(StepReport::Failed(e), tried, retry_limit, retry_delay)
            == (Outcome::Fail { error: e }),
{
}

} // verus!
