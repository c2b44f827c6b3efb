//! A worker's configuration: the connection pool it reads tasks from and how many steps
//! it runs at once.
use vstd::prelude::*;
use std::marker::PhantomData;

verus! {

/// Relies on num_cpus::get: the number of CPUs available, at least 1.
#[verifier::external_body]
fn cpu_count() -> (r: usize)
    ensures
        r >= 1,
{
    num_cpus::get()
}

/// A worker for processing tasks whose steps are of type `T`, reading them
/// through the connection pool `P`, which it carries unread.
pub struct Worker<T, P> {
    db: P,
    tasks: PhantomData<T>,
    concurrency: usize,
}

impl<T, P> Worker<T, P> {
    /// How many steps the worker runs at once.
    pub closed spec fn concurrency_spec(&self) -> usize {
        self.concurrency
    }

    /// Creates a worker on `db` that runs as many steps at once as the
    /// machine has CPUs.
    pub fn new(db: P) -> (r: Self)
        ensures
            r.concurrency_spec() >= 1,
            r.db_spec() == db,
    {
        let concurrency = cpu_count();
        Worker { db, tasks: PhantomData, concurrency }
    }

    /// Sets the number of steps run at once.
    pub fn with_concurrency(self, concurrency: usize) -> (r: Self)
        ensures
            r.concurrency_spec() == concurrency,
            r.db_spec() == self.db_spec(),
    {
        let Worker { db, tasks, concurrency: _ } = self;
        Worker { db, tasks, concurrency }
    }

    /// The pool the worker was made with.
    pub closed spec fn db_spec(&self) -> P {
        self.db
    }

    /// How many steps the worker runs at once.
    pub fn concurrency(&self) -> (r: usize)
        ensures
            r == self.concurrency_spec(),
    {
        self.concurrency
    }

    /// The pool the worker reads tasks from.
    pub fn db(&self) -> (r: &P)
        ensures
            *r == self.db_spec(),
    {
        &self.db
    }
}

} // verus!
