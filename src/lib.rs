//! Synchronization and thread-lifecycle protocols for a small embedded kernel.
//!
//! Each primitive is described by its state and by the steps that move it
//! from one state to the next: which caller may proceed, which must wait,
//! and whom a release has to wake. The readers-writer lock's steps are driven
//! by the runtime around this crate, which makes the kernel calls that block,
//! park and wake while it holds the lock's private mutex. The exclusive locks
//! are models of the kernel locks' own protocol, which the kernel enforces.
use vstd::prelude::*;

pub mod mutex;
pub mod rwlock;
pub mod thread;
pub mod guard;

verus! {

/// What a caller does after asking for a lock.
#[derive(PartialEq, Eq, Structural, Clone, Copy, Debug)]
pub enum Step {
    /// The lock is now held by the caller.
    Proceed,
    /// The lock is taken: the caller parks and asks again once woken.
    Wait,
}

} // verus!
