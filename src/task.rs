//! A task row and what the outcome of a step does to it.
use vstd::prelude::*;
use crate::time::{Timestamp, later, later_spec};

verus! {

/// One persisted task.
pub struct Task {
    /// Identifier assigned by the store on insertion.
    pub id: u128,
    /// The encoded step to run next.
    pub step: String,
    /// Attempts made at the current step.
    pub tried: i32,
    /// The task is due once the clock reaches this time.
    pub wakeup_at: Timestamp,
    /// Set while a worker holds the task's lease.
    pub is_running: bool,
    /// When set the task is parked: it is never selected again.
    pub error: Option<String>,
    /// Time of the last change to the row.
    pub updated_at: Timestamp,
}

/// What a finished step does to its task.
pub enum Outcome {
    /// The task is done: its row is removed.
    Complete,
    /// Go on with `step` after `delay` microseconds, with a fresh attempt count.
    NextStep { step: String, delay: u64 },
    /// Run the same step again after `delay` microseconds.
    Retry { delay: u64 },
    /// Park the task with `error`.
    Fail { error: String },
}

impl Task {
    /// The dispatcher may select the task: it is neither leased nor parked.
    pub open spec fn eligible(&self) -> bool {
        !self.is_running && self.error.is_none()
    }
}

/// The row that `outcome`, recorded at `now`, leaves of `row`; `None` when the row is removed.
pub open spec fn apply_spec(row: Task, outcome: Outcome, now: int) -> Option<Task> {
    match outcome {
        Outcome::Complete => None,
        Outcome::NextStep { step, delay } => Some(Task {
            step: step,
            tried: 0,
            wakeup_at: later_spec(now, delay as int) as i64,
            is_running: false,
            error: None,
            updated_at: now as i64,
            ..row
        }),
        Outcome::Retry { delay } => Some(Task {
            tried: (row.tried + 1) as i32,
            wakeup_at: later_spec(now, delay as int) as i64,
            is_running: false,
            error: None,
            updated_at: now as i64,
            ..row
        }),
        Outcome::Fail { error } => Some(Task {
            wakeup_at: now as i64,
            is_running: false,
            error: Some(error),
            updated_at: now as i64,
            ..row
        }),
    }
}

/// An outcome can be recorded on `row`: a retry must not push the attempt count past `i32::MAX`.
pub open spec fn can_apply(row: Task, outcome: Outcome) -> bool {
    outcome is Retry ==> row.tried < i32::MAX
}

/// Records `outcome` on `row` at time `now`.
pub fn apply_outcome(row: Task, outcome: Outcome, now: Timestamp) -> (r: Option<Task>)
    requires
        can_apply(row, outcome),
    ensures
        r == apply_spec(row, outcome, now as int),
{
    match outcome {
        Outcome::Complete => None,
        Outcome::NextStep { step, delay } => Some(Task {
            id: row.id,
            step,
            tried: 0,
            wakeup_at: later(now, delay),
            is_running: false,
            error: None,
            updated_at: now,
        }),
        Outcome::Retry { delay } => Some(Task {
            id: row.id,
            step: row.step,
            tried: row.tried + 1,
            wakeup_at: later(now, delay),
            is_running: false,
            error: None,
            updated_at: now,
        }),
        Outcome::Fail { error } => Some(Task {
            id: row.id,
            step: row.step,
            tried: row.tried,
            wakeup_at: now,
            is_running: false,
            error: Some(error),
            updated_at: now,
        }),
    }
}

/// A completed task leaves no row; a retried task has a strictly larger
/// attempt count than before; a task that moves on to a next step starts it
/// with no attempts made. Every outcome that keeps the row releases its lease.
pub proof fn lemma_outcome_effects(row: Task, outcome: Outcome, now: Timestamp)
    requires
        can_apply(row, outcome),
    ensures
        outcome is Complete ==> apply_spec(row, outcome, now as int) is None,
        outcome is Retry ==> (apply_spec(row, outcome, now as int) matches Some(t) && t.tried > row.tried),
        outcome is NextStep ==> (apply_spec(row, outcome, now as int) matches Some(t) && t.tried == 0),
        apply_spec(row, outcome, now as int) matches Some(t) ==> !t.is_running && t.id == row.id,
{
}

/// Recording an outcome at a time no earlier than the row's last change
/// never moves its `updated_at` back.
pub proof fn lemma_updated_at_monotone(row: Task, outcome: Outcome, now: Timestamp)
    requires
        now >= row.updated_at,
    ensures
        apply_spec(row, outcome, now as int) matches Some(t) ==> t.updated_at >= row.updated_at,
{
}

/// Attempt counts never become negative: an outcome recorded on a row with
/// a non-negative count leaves a non-negative count.
pub proof fn lemma_tried_stays_nonnegative(row: Task, outcome: Outcome, now: Timestamp)
    requires
        row.tried >= 0,
        can_apply(row, outcome),
    ensures
        apply_spec(row, outcome, now as int) matches Some(t) ==> t.tried >= 0,
{
}

} // verus!
