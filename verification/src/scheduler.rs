//! A model of the scheduler collaborator's run queue.
//!
//! The selection policy and the context-switch mechanism are outside this
//! core; all it consumes is the `push` entry point. The queue is therefore
//! modelled as the sequence of thread identifiers handed over, in order, so
//! that callers can state exactly what `resume` exposes to the scheduler.

use vstd::prelude::*;

verus! {

/// Stable identifier of a thread, the arena index under which the scheduler
/// reaches the thread's execution context. Handing an index across the lock
/// boundary instead of a raw address keeps the run queue free of dangling
/// pointers even if the reference counting were ever wrong.
pub type ThreadId = u64;

/// The run queue of the executing processor's scheduler, seen from this
/// core: the log of thread identifiers pushed so far.
pub struct Scheduler {
    queue: Vec<ThreadId>,
}

impl View for Scheduler {
    type V = Seq<ThreadId>;

    closed spec fn view(&self) -> Seq<ThreadId> {
        self.queue@
    }
}

impl Scheduler {
    /// A scheduler that has not yet been handed any thread.
    pub fn new() -> (s: Scheduler)
        ensures
            s@ == Seq::<ThreadId>::empty(),
    {
        Scheduler { queue: Vec::new() }
    }

    /// Collaborator entry point: enqueue one runnable thread.
    pub fn push(&mut self, thread: ThreadId)
        ensures
            final(self)@ == old(self)@.push(thread),
    {
        self.queue.push(thread);
    }

    /// How many threads have been handed to the run queue.
    pub fn len(&self) -> (n: usize)
        ensures
            n == self@.len(),
    {
        self.queue.len()
    }

    /// The `i`-th thread handed over, in push order.
    pub fn get(&self, i: usize) -> (t: ThreadId)
        requires
            i < self@.len(),
        ensures
            t == self@[i as int],
    {
        self.queue[i]
    }
}

} // verus!
