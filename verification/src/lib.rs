//! Preemption core of a small kernel: the path from a hardware timer
//! interrupt to a reference-counted hand-off of a thread to the scheduler.
//!
//! The hardware itself (interrupt controller ports, the context-switch
//! machinery, per-CPU lookup) lives outside this crate; here each such
//! collaborator is modelled by plain data, so that the decisions made on the
//! interrupt path and the thread-handle lifecycle are stated and proved.

pub mod irq;
pub mod scheduler;
pub mod thread;
