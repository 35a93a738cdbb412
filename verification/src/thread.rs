//! The thread handle: a reference-counted kernel object wrapping a thread's
//! run state and execution context.
//!
//! In the running kernel the inner thread sits behind a reader-writer lock
//! and is shared with interrupt context; here the lock's serialisation is
//! the exclusivity of `&mut`, and both the run state and the reference
//! count are plain fields, so every transition and every movement of the
//! count is stated and proved. The execution context itself (register save
//! area, stack, entry closure) is allocated and consumed by external
//! collaborators; what this core reads of it is modelled as plain values.

use vstd::prelude::*;
use crate::scheduler::{Scheduler, ThreadId};

verus! {

/// The scheduling status of a thread.
#[derive(Clone, Copy, Debug, PartialEq, Eq, Structural)]
pub enum State {
    /// Eligible to be selected by the scheduler.
    Ready,
    /// Currently executing on some processor.
    Running,
    /// Waiting for an event; not eligible for selection.
    Blocked,
    /// Taken out of scheduling by request; not eligible for selection.
    Suspended,
    /// Finished; must not be resumed again.
    Exited,
}

/// Failures surfaced by thread-handle operations.
#[derive(Clone, Copy, Debug, PartialEq, Eq, Structural)]
pub enum Error {
    /// The execution context could not be allocated. Allocation is the
    /// memory collaborator's work; an embedding that performs it maps its
    /// failure to this kind.
    NoMemory,
    /// `exit` found a handle whose reference count had already reached
    /// zero, so there was no scheduler reference left to give back.
    Released,
}

/// One schedulable unit of execution: its run state, plus what this core
/// reads of the opaque execution context — the stack size it was built to.
pub struct Thread {
    /// Current scheduling status.
    pub state: State,
    /// Size, in bytes, requested for the execution context's stack.
    pub stack_size: usize,
}

/// A reference-counted handle wrapping a [`Thread`].
///
/// The count tallies the independent owners of the thread — the creator,
/// anyone holding the handle, and, after a `resume`, the scheduler's run
/// queue; the thread's storage may be reclaimed only once it reaches zero.
/// This core never forces that reclamation; it only keeps the count right.
pub struct ThreadRef {
    thread: Thread,
    refs: u64,
    id: ThreadId,
}

/// The states from which a thread may be woken by [`ThreadRef::resume`].
pub open spec fn can_resume(t: ThreadRef) -> bool {
    t.state_spec() == State::Blocked || t.state_spec() == State::Suspended
}

/// How a handle after a successful `resume` relates to the handle before:
/// the thread is Ready, the count has grown by the run queue's one new
/// reference, and the handle's identity is untouched.
pub open spec fn resume_transition(pre: ThreadRef, post: ThreadRef) -> bool {
    &&& post.state_spec() == State::Ready
    &&& post.ref_count_spec() == pre.ref_count_spec() + 1
    &&& post.id_spec() == pre.id_spec()
    &&& post.stack_size_spec() == pre.stack_size_spec()
}

/// How a handle after a successful `exit` relates to the handle before:
/// exactly one reference — the run queue's — has been given back, and
/// nothing else has moved.
pub open spec fn exit_transition(pre: ThreadRef, post: ThreadRef) -> bool {
    &&& post.ref_count_spec() == pre.ref_count_spec() - 1
    &&& post.state_spec() == pre.state_spec()
    &&& post.id_spec() == pre.id_spec()
    &&& post.stack_size_spec() == pre.stack_size_spec()
}

impl ThreadRef {
    /// Current run state of the wrapped thread.
    pub closed spec fn state_spec(&self) -> State {
        self.thread.state
    }

    /// Number of independent owners of the thread.
    pub closed spec fn ref_count_spec(&self) -> u64 {
        self.refs
    }

    /// Stable identifier under which the scheduler reaches this thread.
    pub closed spec fn id_spec(&self) -> ThreadId {
        self.id
    }

    /// Stack size the thread's execution context was built to.
    pub closed spec fn stack_size_spec(&self) -> usize {
        self.thread.stack_size
    }

    /// Creates a thread whose execution context is sized to `stack_size`
    /// and registered with the external context arena under `id`; returns a
    /// fresh handle holding the one creator reference, initially Ready.
    ///
    /// The context allocation itself is the memory collaborator's work and
    /// sits outside this core, so construction here is total; an embedding
    /// that allocates for real surfaces its failure as [`Error::NoMemory`].
    pub fn new(stack_size: usize, id: ThreadId) -> (r: Result<ThreadRef, Error>)
        ensures
            r matches Ok(t)
                && t.state_spec() == State::Ready
                && t.ref_count_spec() == 1
                && t.id_spec() == id
                && t.stack_size_spec() == stack_size,
    {
        Ok(ThreadRef {
            thread: Thread { state: State::Ready, stack_size },
            refs: 1,
            id,
        })
    }

    /// Reads the current run state. In the kernel this takes the read lock
    /// for a short critical section; the value returned is exactly the one
    /// the last completed transition wrote, never a torn intermediate.
    pub fn state(&self) -> (s: State)
        ensures
            s == self.state_spec(),
    {
        self.thread.state
    }

    /// Assigns a new run state unconditionally. Whether the transition is
    /// semantically valid is the caller's obligation; this operation only
    /// guarantees it is applied whole, with count and identity untouched.
    pub fn set_state(&mut self, state: State)
        ensures
            final(self).state_spec() == state,
            final(self).ref_count_spec() == old(self).ref_count_spec(),
            final(self).id_spec() == old(self).id_spec(),
            final(self).stack_size_spec() == old(self).stack_size_spec(),
    {
        self.thread.state = state;
    }

    /// Wakes a Blocked or Suspended thread: sets it Ready, grants the run
    /// queue its own reference, and only then exposes the thread's
    /// identifier to the current processor's scheduler — so the thread
    /// cannot be reclaimed while the queue still holds it, however long
    /// that is after this call returns.
    pub fn resume(&mut self, scheduler: &mut Scheduler) -> (r: Result<(), Error>)
        requires
            can_resume(*old(self)),
            old(self).ref_count_spec() < u64::MAX,
        ensures
            r is Ok,
            resume_transition(*old(self), *final(self)),
            final(scheduler)@ == old(scheduler)@.push(old(self).id_spec()),
    {
        self.set_state(State::Ready);
        // The run queue becomes an owner independent of whoever is calling:
        // count its reference before the identifier is handed over.
        self.refs = self.refs + 1;
        scheduler.push(self.id);
        Ok(())
    }

    /// Retires the run queue's reference once the scheduler is done with
    /// this thread, giving back exactly the count the matching `resume`
    /// granted. On a handle already counted down to zero there is nothing
    /// to give back: the call changes nothing and says so.
    pub fn exit(&mut self) -> (r: Result<(), Error>)
        ensures
            old(self).ref_count_spec() >= 1
                ==> r is Ok && exit_transition(*old(self), *final(self)),
            old(self).ref_count_spec() == 0
                ==> (r matches Err(e) && e == Error::Released) && *final(self) == *old(self),
    {
        if self.refs >= 1 {
            self.refs = self.refs - 1;
            Ok(())
        } else {
            Err(Error::Released)
        }
    }

    /// Reads the current reference count.
    pub fn ref_count(&self) -> (n: u64)
        ensures
            n == self.ref_count_spec(),
    {
        self.refs
    }

    /// Reads the thread's stable identifier.
    pub fn id(&self) -> (i: ThreadId)
        ensures
            i == self.id_spec(),
    {
        self.id
    }

    /// Reads the stack size the execution context was built to.
    pub fn stack_size(&self) -> (n: usize)
        ensures
            n == self.stack_size_spec(),
    {
        self.thread.stack_size
    }
}

/// Law: a `resume` paired with the one matching `exit` leaves the reference
/// count exactly where it began — the scheduler gives back precisely the
/// reference `resume` granted it — and the thread comes out of the pair
/// Ready, under its old identity.
pub proof fn lemma_resume_exit_balance(before: ThreadRef, resumed: ThreadRef, exited: ThreadRef)
    requires
        resume_transition(before, resumed),
        exit_transition(resumed, exited),
    ensures
        exited.ref_count_spec() == before.ref_count_spec(),
        exited.state_spec() == State::Ready,
        exited.id_spec() == before.id_spec(),
        exited.stack_size_spec() == before.stack_size_spec(),
{
}

} // verus!
