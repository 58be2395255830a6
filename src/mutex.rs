//! Exclusive locks: a plain mutex and a reentrant one.
//!
//! These types model the protocol of the kernel's own light lock and
//! recursive lock: who holds the lock, how deep, and who must wait. The
//! kernel enforces that protocol itself; the runtime around this crate calls
//! the kernel locks directly and does not drive these models. It uses
//! `try_lock_succeeded` to read the kernel's answers.
use vstd::prelude::*;

use crate::Step;

verus! {

/// A non-reentrant exclusive lock, described by the thread that holds it.
pub struct Mutex {
    holder: Option<u64>,
}

/// One call made on a `Mutex` by a given thread.
#[derive(PartialEq, Eq, Structural, Clone, Copy, Debug)]
pub enum LockOp {
    Lock(u64),
    Unlock(u64),
}

/// The holder of a `Mutex` after `op`, from the holder `h` before it. An unlock
/// by a thread that does not hold the lock is a misuse that the exec functions
/// rule out; here it changes nothing.
pub open spec fn mutex_step(h: Option<u64>, op: LockOp) -> Option<u64> {
    match op {
        LockOp::Lock(t) => if h is None { Some(t) } else { h },
        LockOp::Unlock(t) => if h == Some(t) { None } else { h },
    }
}

/// The holder of a `Mutex` after the calls of `ops`, in order.
pub open spec fn mutex_run(h: Option<u64>, ops: Seq<LockOp>) -> Option<u64>
    decreases ops.len(),
{
    if ops.len() == 0 {
        h
    } else {
        mutex_run(mutex_step(h, ops[0]), ops.drop_first())
    }
}

impl Mutex {
    /// The thread that holds the lock, if any.
    pub closed spec fn holder(&self) -> Option<u64> {
        self.holder
    }

    /// A free lock.
    pub fn new() -> (r: Mutex)
        ensures
            r.holder() is None,
    {
        Mutex { holder: None }
    }

    /// Puts the lock in its free state; run once, before the first use.
    pub fn init(&mut self)
        ensures
            final(self).holder() is None,
    {
        self.holder = None;
    }

    /// Thread `tid` asks for the lock, prepared to wait. A thread that already
    /// holds it is told to wait too: the lock is not reentrant.
    pub fn lock(&mut self, tid: u64) -> (r: Step)
        ensures
            final(self).holder() == mutex_step(old(self).holder(), LockOp::Lock(tid)),
            r == (if old(self).holder() is None { Step::Proceed } else { Step::Wait }),
    {
        if self.holder.is_none() {
            self.holder = Some(tid);
            Step::Proceed
        } else {
            Step::Wait
        }
    }

    /// Thread `tid` asks for the lock without waiting; `true` when it got it.
    pub fn try_lock(&mut self, tid: u64) -> (r: bool)
        ensures
            final(self).holder() == mutex_step(old(self).holder(), LockOp::Lock(tid)),
            r == old(self).holder() is None,
            r ==> final(self).holder() == Some(tid),
    {
        if self.holder.is_none() {
            self.holder = Some(tid);
            true
        } else {
            false
        }
    }

    /// The holder `tid` releases the lock.
    pub fn unlock(&mut self, tid: u64)
        requires
            old(self).holder() == Some(tid),
        ensures
            final(self).holder() == mutex_step(old(self).holder(), LockOp::Unlock(tid)),
            final(self).holder() is None,
    {
        self.holder = None;
    }

    /// Releases the lock's resources: there are none to give back.
    pub fn destroy(&self) {
    }

    /// The thread that holds the lock, if any.
    pub fn held_by(&self) -> (r: Option<u64>)
        ensures
            r == self.holder(),
    {
        self.holder
    }
}

/// A lock that its holder may take again: it counts how deep the holder is.
/// It must be initialized once before any other call.
pub struct ReentrantMutex {
    ready: bool,
    owner: Option<u64>,
    depth: u32,
}

/// The owner and depth of a `ReentrantMutex` after thread `t` takes it, when it may.
pub open spec fn rmutex_lock(owner: Option<u64>, depth: nat, t: u64) -> (Option<u64>, nat) {
    if owner is None {
        (Some(t), 1)
    } else if owner == Some(t) {
        (owner, depth + 1)
    } else {
        (owner, depth)
    }
}

/// The owner and depth of a `ReentrantMutex` after its owner releases it once.
pub open spec fn rmutex_unlock(owner: Option<u64>, depth: nat) -> (Option<u64>, nat) {
    if depth <= 1 {
        (None, 0)
    } else {
        (owner, (depth - 1) as nat)
    }
}

/// The owner and depth after thread `t` takes the lock `n` times in a row.
pub open spec fn rmutex_lock_n(owner: Option<u64>, depth: nat, t: u64, n: nat) -> (Option<u64>, nat)
    decreases n,
{
    if n == 0 {
        (owner, depth)
    } else {
        let (o, d) = rmutex_lock_n(owner, depth, t, (n - 1) as nat);
        rmutex_lock(o, d, t)
    }
}

/// The owner and depth after the owner releases the lock `n` times in a row.
pub open spec fn rmutex_unlock_n(owner: Option<u64>, depth: nat, n: nat) -> (Option<u64>, nat)
    decreases n,
{
    if n == 0 {
        (owner, depth)
    } else {
        let (o, d) = rmutex_unlock_n(owner, depth, (n - 1) as nat);
        rmutex_unlock(o, d)
    }
}

impl ReentrantMutex {
    /// Whether `init` has run.
    pub closed spec fn is_ready(&self) -> bool {
        self.ready
    }

    /// The thread that holds the lock, if any.
    pub closed spec fn owner(&self) -> Option<u64> {
        self.owner
    }

    /// How many times the owner has taken the lock without releasing it.
    pub closed spec fn depth(&self) -> nat {
        self.depth as nat
    }

    /// The lock has an owner exactly when its depth is above zero.
    pub open spec fn wf(&self) -> bool {
        (self.owner() is None) == (self.depth() == 0)
    }

    /// A lock that must be initialized before use.
    pub fn uninitialized() -> (r: ReentrantMutex)
        ensures
            !r.is_ready(),
            r.owner() is None,
            r.wf(),
    {
        ReentrantMutex { ready: false, owner: None, depth: 0 }
    }

    /// Makes the lock usable and free; run once, before any other call.
    pub fn init(&mut self)
        ensures
            final(self).is_ready(),
            final(self).owner() is None,
            final(self).wf(),
    {
        self.ready = true;
        self.owner = None;
        self.depth = 0;
    }

    /// Thread `tid` asks for the lock, prepared to wait. Its owner gets it at
    /// once, one level deeper; a free lock goes to `tid`; otherwise `tid` waits.
    pub fn lock(&mut self, tid: u64) -> (r: Step)
        requires
            old(self).is_ready(),
            old(self).wf(),
            old(self).owner() == Some(tid) ==> old(self).depth() < u32::MAX,
        ensures
            final(self).is_ready(),
            final(self).wf(),
            (final(self).owner(), final(self).depth())
                == rmutex_lock(old(self).owner(), old(self).depth(), tid),
            r == (if old(self).owner() is None || old(self).owner() == Some(tid) {
                Step::Proceed
            } else {
                Step::Wait
            }),
    {
        if self.try_lock(tid) {
            Step::Proceed
        } else {
            Step::Wait
        }
    }

    /// Thread `tid` asks for the lock without waiting; `true` when it holds it now.
    pub fn try_lock(&mut self, tid: u64) -> (r: bool)
        requires
            old(self).is_ready(),
            old(self).wf(),
            old(self).owner() == Some(tid) ==> old(self).depth() < u32::MAX,
        ensures
            final(self).is_ready(),
            final(self).wf(),
            (final(self).owner(), final(self).depth())
                == rmutex_lock(old(self).owner(), old(self).depth(), tid),
            r == (old(self).owner() is None || old(self).owner() == Some(tid)),
    {
        match self.owner {
            None => {
                self.owner = Some(tid);
                self.depth = 1;
                true
            },
            Some(o) => {
                if o == tid {
                    self.depth = self.depth + 1;
                    true
                } else {
                    false
                }
            },
        }
    }

    /// The owner `tid` releases one level; the last release frees the lock.
    pub fn unlock(&mut self, tid: u64)
        requires
            old(self).is_ready(),
            old(self).wf(),
            old(self).owner() == Some(tid),
        ensures
            final(self).is_ready(),
            final(self).wf(),
            (final(self).owner(), final(self).depth())
                == rmutex_unlock(old(self).owner(), old(self).depth()),
    {
        if self.depth <= 1 {
            self.owner = None;
            self.depth = 0;
        } else {
            self.depth = self.depth - 1;
        }
    }

    /// Releases the lock's resources: there are none to give back.
    pub fn destroy(&self) {
    }

    /// The thread that holds the lock, if any.
    pub fn held_by(&self) -> (r: Option<u64>)
        ensures
            r == self.owner(),
    {
        self.owner
    }

    /// How many times the owner has taken the lock without releasing it.
    pub fn lock_depth(&self) -> (r: u32)
        ensures
            r == self.depth(),
    {
        self.depth
    }
}

/// A thread that takes a free `ReentrantMutex` `n` times and then releases it
/// `n` times never waits on itself, keeps every other thread out in between,
/// and leaves the lock free.
pub proof fn lemma_reentrant_nesting(t: u64, u: u64, n: nat, k: nat)
    requires
        t != u,
        1 <= k <= n,
    ensures
        rmutex_lock_n(None, 0, t, k) == (Some(t), k),
        rmutex_lock(Some(t), k, u) == (Some(t), k),
        rmutex_unlock_n(Some(t), n, (n - k) as nat) == (Some(t), k),
        rmutex_unlock_n(Some(t), n, n) == (None::<u64>, 0nat),
{
    lemma_lock_n(t, k);
    lemma_unlock_n(t, n, (n - k) as nat);
    lemma_unlock_n(t, n, n);
}

proof fn lemma_lock_n(t: u64, k: nat)
    ensures
        k >= 1 ==> rmutex_lock_n(None, 0, t, k) == (Some(t), k),
    decreases k,
{
    if k >= 1 {
        lemma_lock_n(t, (k - 1) as nat);
        let (o, d) = rmutex_lock_n(None, 0, t, (k - 1) as nat);
        assert(rmutex_lock_n(None, 0, t, k) == rmutex_lock(o, d, t));
    }
}

proof fn lemma_unlock_n(t: u64, n: nat, j: nat)
    requires
        1 <= n,
        j <= n,
    ensures
        j < n ==> rmutex_unlock_n(Some(t), n, j) == (Some(t), (n - j) as nat),
        j == n ==> rmutex_unlock_n(Some(t), n, j) == (None::<u64>, 0nat),
    decreases j,
{
    if j > 0 {
        lemma_unlock_n(t, n, (j - 1) as nat);
    }
}

/// Reads the kernel's answer to a non-blocking lock attempt: zero reports
/// that the lock was taken, any other value that it was busy.
pub fn try_lock_succeeded(code: i32) -> (r: bool)
    ensures
        r == (code == 0),
{
    code == 0
}

/// While a thread holds a `Mutex`, no other thread gets it: whatever calls
/// the threads make, the holder stays the same until it unlocks.
pub proof fn lemma_mutex_exclusive(h: Option<u64>, t: u64, ops: Seq<LockOp>)
    requires
        h == Some(t),
        forall|i: int| 0 <= i < ops.len() ==> ops[i] != LockOp::Unlock(t),
    ensures
        mutex_run(h, ops) == Some(t),
    decreases ops.len(),
{
    if ops.len() > 0 {
        assert(ops[0] != LockOp::Unlock(t));
        let rest = ops.drop_first();
        assert forall|i: int| 0 <= i < rest.len() implies rest[i] != LockOp::Unlock(t) by {
            assert(rest[i] == ops[i + 1]);
        }
        lemma_mutex_exclusive(mutex_step(h, ops[0]), t, rest);
    }
}

} // verus!
