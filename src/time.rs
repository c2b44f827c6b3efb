//! Points in time and delays, as plain integers.
use vstd::prelude::*;

verus! {

/// A point in time, in microseconds since the Unix epoch.
pub type Timestamp = i64;

/// `at` moved later by `delay` microseconds, held at the latest representable time.
pub open spec fn later_spec(at: int, delay: int) -> int {
    if at + delay > i64::MAX {
        i64::MAX as int
    } else {
        at + delay
    }
}

/// The time `delay` microseconds after `at`; where that lies beyond what a
/// `Timestamp` can hold, the latest time it can hold.
pub fn later(at: Timestamp, delay: u64) -> (r: Timestamp)
    ensures
        r == later_spec(at as int, delay as int),
        r >= at,
{
    let sum: i128 = at as i128 + delay as i128;
    if sum > i64::MAX as i128 {
        i64::MAX
    } else {
        sum as i64
    }
}

/// How long a task that wakes up at `wakeup_at` must still wait at `now`:
/// `None` once it is due, else the positive delay in microseconds.
pub fn wait_before_running(wakeup_at: Timestamp, now: Timestamp) -> (r: Option<u64>)
    ensures
        wakeup_at <= now ==> r.is_none(),
        wakeup_at > now ==> r == Some((wakeup_at - now) as u64),
        r matches Some(d) ==> d > 0 && now + d == wakeup_at,
{
    if wakeup_at <= now {
        None
    } else {
        let d: i128 = wakeup_at as i128 - now as i128;
        Some(d as u64)
    }
}

} // verus!
