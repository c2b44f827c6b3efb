//! Edge-triggered wake-ups: a signal that counts the changes of the table,
//! and waiters latched to the count at the time they subscribed.
use vstd::prelude::*;

verus! {

/// The changes of the task table seen so far.
pub struct Notifier {
    generation: u64,
}

/// A one-shot waiter, bound to the generation of the signal when it was made.
pub struct Waiter {
    generation: u64,
}

impl Waiter {
    /// The generation the waiter was bound to.
    pub closed spec fn generation(&self) -> u64 {
        self.generation
    }
}

impl Notifier {
    /// The current generation of the signal.
    pub closed spec fn generation(&self) -> u64 {
        self.generation
    }

    /// The signal after one more change of the table.
    pub open spec fn notified_generation(g: u64) -> u64 {
        if g == u64::MAX { 0 } else { (g + 1) as u64 }
    }

    /// A signal that has seen no change.
    pub fn new() -> (r: Notifier)
        ensures
            r.generation() == 0,
    {
        Notifier { generation: 0 }
    }

    /// A waiter bound to the current generation: any change published after
    /// this call wakes it.
    pub fn subscribe(&self) -> (w: Waiter)
        ensures
            w.generation() == self.generation(),
    {
        Waiter { generation: self.generation }
    }

    /// Publishes one change of the table.
    pub fn notify(&mut self)
        ensures
            final(self).generation() == Notifier::notified_generation(old(self).generation()),
    {
        self.generation = if self.generation == u64::MAX { 0 } else { self.generation + 1 };
    }

    /// Whether a change was published since `w` subscribed (to within
    /// 2^64 changes, after which the count wraps round).
    pub fn fired(&self, w: &Waiter) -> (r: bool)
        ensures
            r == (self.generation() != w.generation()),
    {
        self.generation != w.generation
    }
}

/// A change published after a waiter subscribed wakes it, and a waiter that
/// has seen no change since it subscribed is not woken.
pub proof fn lemma_edge_triggered(n: Notifier, w: Waiter)
    requires
        w.generation() == n.generation(),
    ensures
        Notifier::notified_generation(n.generation()) != w.generation(),
        !(n.generation() != w.generation()),
{
}

} // verus!
