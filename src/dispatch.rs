//! One round of the dispatcher's receive loop.
use vstd::prelude::*;
use crate::time::{Timestamp, wait_before_running};
use crate::store::{TaskTable, is_closest, none_eligible, leased};

verus! {

/// What the dispatcher does after looking for the closest task.
pub enum RecvAction {
    /// No task can be selected: wait for a change of the table.
    WaitForever,
    /// The closest task is due in this many microseconds: wait for that
    /// long, or for a change of the table, then look again.
    WaitFor(u64),
    /// The closest task is due: lease it and run it.
    Run,
}

/// The action for a closest task that wakes up at `closest` (`None`: there is
/// none) at time `now`.
pub open spec fn action_spec(closest: Option<Timestamp>, now: Timestamp) -> RecvAction {
    match closest {
        None => RecvAction::WaitForever,
        Some(w) => if w <= now {
            RecvAction::Run
        } else {
            RecvAction::WaitFor((w - now) as u64)
        },
    }
}

/// Decides what the dispatcher does, given the wake-up time of the closest
/// task (`None` when there is none) and the time `now`. The lease is never
/// held across a wait: a task that is not yet due is only waited for.
pub fn next_action(closest: Option<Timestamp>, now: Timestamp) -> (r: RecvAction)
    ensures
        r == action_spec(closest, now),
        r matches RecvAction::WaitFor(d) ==> d > 0,
{
    match closest {
        None => RecvAction::WaitForever,
        Some(w) => match wait_before_running(w, now) {
            None => RecvAction::Run,
            Some(d) => RecvAction::WaitFor(d),
        },
    }
}

/// What one round of the receive loop found.
pub enum Received {
    /// Nothing can be selected.
    Idle,
    /// The closest task is due in this many microseconds.
    Wait(u64),
    /// The task at this row was due and is now leased.
    Picked(usize),
}

/// One round of the receive loop on `table` at `now`: selects the closest
/// task and leases it if it is due; otherwise changes nothing and says how
/// long to wait.
pub fn recv_round(table: &mut TaskTable, now: Timestamp) -> (r: Received)
    requires
        old(table).wf(),
    ensures
        final(table).wf(),
        final(table).next_id() == old(table).next_id(),
        r is Idle ==> none_eligible(old(table)@) && final(table)@ == old(table)@,
        r matches Received::Wait(d) ==> exists|i: int| {
            &&& is_closest(old(table)@, i)
            &&& #[trigger] old(table)@[i].wakeup_at == now + d
            &&& d > 0
        } && final(table)@ == old(table)@,
        r matches Received::Picked(i) ==> {
            &&& is_closest(old(table)@, i as int)
            &&& old(table)@[i as int].wakeup_at <= now
            &&& final(table)@ == leased(old(table)@, i as int, now as int)
        },
{
    match table.fetch_closest() {
        None => Received::Idle,
        Some(i) => {
            let w = table.get(i).wakeup_at;
            match next_action(Some(w), now) {
                RecvAction::Run => {
                    table.mark_running(i, now);
                    Received::Picked(i)
                },
                RecvAction::WaitFor(d) => {
                    assert(old(table)@[i as int].wakeup_at == now + d);
                    Received::Wait(d)
                },
                RecvAction::WaitForever => Received::Idle,
            }
        },
    }
}

} // verus!
