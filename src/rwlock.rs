//! A read-preferring readers-writer lock.
//!
//! The state is a count of live readers and a flag for an active writer, both
//! changed only under the lock's private mutex. Readers are admitted whenever
//! no writer is active, even while a writer waits; a writer is admitted once
//! there is neither a writer nor a reader. Releasing the last reader wakes one
//! waiter, releasing a writer wakes every waiter, and each waiter checks its
//! own condition again when woken.
use vstd::prelude::*;

use crate::Step;

verus! {

/// The readers-writer lock's shared state.
pub struct RWLock {
    reader_count: u32,
    writer_active: bool,
}

/// Whom a release has to wake among the threads parked on the lock.
#[derive(PartialEq, Eq, Structural, Clone, Copy, Debug)]
pub enum Wake {
    Nobody,
    One,
    All,
}

/// The answer to a non-blocking request.
#[derive(PartialEq, Eq, Structural, Clone, Copy, Debug)]
pub enum Admission {
    /// The private mutex was busy: the caller gives up at once.
    Refused,
    /// The private mutex was taken, but the lock is not free for this caller:
    /// it parks and asks again once woken.
    Wait,
    /// The caller now holds the lock.
    Granted,
}

/// One call made on an `RWLock`.
#[derive(PartialEq, Eq, Structural, Clone, Copy, Debug)]
pub enum RwOp {
    Read,
    Write,
    ReadUnlock,
    WriteUnlock,
}

/// A reader may enter when no writer is active.
pub open spec fn may_read(writer: bool) -> bool {
    !writer
}

/// A writer may enter when there is neither a writer nor a reader.
pub open spec fn may_write(readers: nat, writer: bool) -> bool {
    !writer && readers == 0
}

/// Readers and a writer never hold the lock together.
pub open spec fn rw_exclusive(readers: nat, writer: bool) -> bool {
    !(writer && readers > 0)
}

/// The reader count and writer flag after `op`, from those before it. A
/// request that may not enter yet, or a release with nothing to release,
/// changes nothing.
pub open spec fn rw_step(readers: nat, writer: bool, op: RwOp) -> (nat, bool) {
    match op {
        RwOp::Read => if may_read(writer) { (readers + 1, writer) } else { (readers, writer) },
        RwOp::Write => if may_write(readers, writer) { (readers, true) } else { (readers, writer) },
        RwOp::ReadUnlock => if readers > 0 {
            ((readers - 1) as nat, writer)
        } else {
            (readers, writer)
        },
        RwOp::WriteUnlock => (readers, false),
    }
}

/// The reader count and writer flag after the calls of `ops`, in order.
pub open spec fn rw_run(readers: nat, writer: bool, ops: Seq<RwOp>) -> (nat, bool)
    decreases ops.len(),
{
    if ops.len() == 0 {
        (readers, writer)
    } else {
        let (r, w) = rw_step(readers, writer, ops[0]);
        rw_run(r, w, ops.drop_first())
    }
}

/// The reader count and writer flag after `n` calls of `op`.
pub open spec fn rw_repeat(readers: nat, writer: bool, op: RwOp, n: nat) -> (nat, bool)
    decreases n,
{
    if n == 0 {
        (readers, writer)
    } else {
        let (r, w) = rw_repeat(readers, writer, op, (n - 1) as nat);
        rw_step(r, w, op)
    }
}

/// Whom a reader's release wakes, given the reader count left after it:
/// only the last reader wakes anyone, and one waiter is enough.
pub open spec fn read_unlock_wake(left: nat) -> Wake {
    if left == 0 { Wake::One } else { Wake::Nobody }
}

impl RWLock {
    /// The number of readers that hold the lock.
    pub closed spec fn readers(&self) -> nat {
        self.reader_count as nat
    }

    /// Whether a writer holds the lock.
    pub closed spec fn writer(&self) -> bool {
        self.writer_active
    }

    pub open spec fn wf(&self) -> bool {
        rw_exclusive(self.readers(), self.writer())
    }

    /// A free lock.
    pub fn new() -> (r: RWLock)
        ensures
            r.readers() == 0,
            !r.writer(),
            r.wf(),
    {
        RWLock { reader_count: 0, writer_active: false }
    }

    /// A reader asks for the lock, prepared to wait.
    pub fn read(&mut self) -> (r: Step)
        requires
            old(self).wf(),
            old(self).readers() < u32::MAX,
        ensures
            final(self).wf(),
            (final(self).readers(), final(self).writer())
                == rw_step(old(self).readers(), old(self).writer(), RwOp::Read),
            r == (if may_read(old(self).writer()) { Step::Proceed } else { Step::Wait }),
    {
        if self.writer_active {
            Step::Wait
        } else {
            self.reader_count = self.reader_count + 1;
            Step::Proceed
        }
    }

    /// A reader asks for the lock after trying the private mutex once:
    /// `guard_taken` tells whether it got it.
    pub fn try_read(&mut self, guard_taken: bool) -> (r: Admission)
        requires
            old(self).wf(),
            guard_taken ==> old(self).readers() < u32::MAX,
        ensures
            final(self).wf(),
            !guard_taken ==> r == Admission::Refused && *final(self) == *old(self),
            guard_taken ==> (final(self).readers(), final(self).writer())
                == rw_step(old(self).readers(), old(self).writer(), RwOp::Read),
            guard_taken ==> r == (if may_read(old(self).writer()) {
                Admission::Granted
            } else {
                Admission::Wait
            }),
    {
        if !guard_taken {
            Admission::Refused
        } else {
            match self.read() {
                Step::Proceed => Admission::Granted,
                Step::Wait => Admission::Wait,
            }
        }
    }

    /// A writer asks for the lock, prepared to wait.
    pub fn write(&mut self) -> (r: Step)
        requires
            old(self).wf(),
        ensures
            final(self).wf(),
            (final(self).readers(), final(self).writer())
                == rw_step(old(self).readers(), old(self).writer(), RwOp::Write),
            r == (if may_write(old(self).readers(), old(self).writer()) {
                Step::Proceed
            } else {
                Step::Wait
            }),
    {
        if self.writer_active || self.reader_count > 0 {
            Step::Wait
        } else {
            self.writer_active = true;
            Step::Proceed
        }
    }

    /// A writer asks for the lock after trying the private mutex once:
    /// `guard_taken` tells whether it got it.
    pub fn try_write(&mut self, guard_taken: bool) -> (r: Admission)
        requires
            old(self).wf(),
        ensures
            final(self).wf(),
            !guard_taken ==> r == Admission::Refused && *final(self) == *old(self),
            guard_taken ==> (final(self).readers(), final(self).writer())
                == rw_step(old(self).readers(), old(self).writer(), RwOp::Write),
            guard_taken ==> r == (if may_write(old(self).readers(), old(self).writer()) {
                Admission::Granted
            } else {
                Admission::Wait
            }),
    {
        if !guard_taken {
            Admission::Refused
        } else {
            match self.write() {
                Step::Proceed => Admission::Granted,
                Step::Wait => Admission::Wait,
            }
        }
    }

    /// A reader releases the lock.
    pub fn read_unlock(&mut self) -> (r: Wake)
        requires
            old(self).wf(),
            old(self).readers() > 0,
        ensures
            final(self).wf(),
            (final(self).readers(), final(self).writer())
                == rw_step(old(self).readers(), old(self).writer(), RwOp::ReadUnlock),
            r == read_unlock_wake(final(self).readers()),
    {
        self.reader_count = self.reader_count - 1;
        if self.reader_count == 0 {
            Wake::One
        } else {
            Wake::Nobody
        }
    }

    /// The writer releases the lock.
    pub fn write_unlock(&mut self) -> (r: Wake)
        requires
            old(self).wf(),
            old(self).writer(),
        ensures
            final(self).wf(),
            (final(self).readers(), final(self).writer())
                == rw_step(old(self).readers(), old(self).writer(), RwOp::WriteUnlock),
            r == Wake::All,
    {
        self.writer_active = false;
        Wake::All
    }

    /// The number of readers that hold the lock.
    pub fn reader_count(&self) -> (r: u32)
        ensures
            r == self.readers(),
    {
        self.reader_count
    }

    /// Whether a writer holds the lock.
    pub fn writer_active(&self) -> (r: bool)
        ensures
            r == self.writer(),
    {
        self.writer_active
    }

    /// Clears the state; only for a lock that nobody holds or waits on.
    pub fn destroy(&mut self)
        ensures
            final(self).readers() == 0,
            !final(self).writer(),
            final(self).wf(),
    {
        self.reader_count = 0;
        self.writer_active = false;
    }
}

/// The admission counter of the kernel's own readers-writer lock after a
/// non-blocking read, and whether the reader must then also take the
/// writer-exclusion lock: only when the counter wraps round to zero.
pub fn try_read_admit(count: u64) -> (r: (u64, bool))
    ensures
        r.0 == (if count == u64::MAX { 0 } else { (count + 1) as u64 }),
        r.1 == (r.0 == 0),
{
    let next: u64 = if count == u64::MAX { 0 } else { count + 1 };
    (next, next == 0)
}

/// Whatever calls are made, readers and a writer never hold the lock together.
pub proof fn lemma_rw_exclusive(readers: nat, writer: bool, ops: Seq<RwOp>)
    requires
        rw_exclusive(readers, writer),
    ensures
        rw_exclusive(rw_run(readers, writer, ops).0, rw_run(readers, writer, ops).1),
    decreases ops.len(),
{
    if ops.len() > 0 {
        let (r, w) = rw_step(readers, writer, ops[0]);
        lemma_rw_exclusive(r, w, ops.drop_first());
    }
}

/// From a free lock, `n` readers all get in together; a writer that asks
/// while any of them is in does not; once all `n` have left, it does.
pub proof fn lemma_readers_then_writer(n: nat)
    requires
        n > 0,
    ensures
        rw_repeat(0, false, RwOp::Read, n) == (n, false),
        forall|k: nat| 0 < k <= n ==> rw_step(k, false, RwOp::Write) == (k, false),
        rw_repeat(n, false, RwOp::ReadUnlock, n) == (0nat, false),
        rw_step(0, false, RwOp::Write) == (0nat, true),
{
    lemma_repeat_read(n);
    lemma_repeat_read_unlock(n, n);
}

proof fn lemma_repeat_read(n: nat)
    ensures
        rw_repeat(0, false, RwOp::Read, n) == (n, false),
    decreases n,
{
    if n > 0 {
        lemma_repeat_read((n - 1) as nat);
    }
}

proof fn lemma_repeat_read_unlock(n: nat, j: nat)
    requires
        j <= n,
    ensures
        rw_repeat(n, false, RwOp::ReadUnlock, j) == ((n - j) as nat, false),
    decreases j,
{
    if j > 0 {
        lemma_repeat_read_unlock(n, (j - 1) as nat);
    }
}

/// While readers hold the lock no reader is left waiting, so the release of
/// the last one has only writers to wake, and it leaves the lock free for one.
/// The release of a writer leaves the lock free for every reader and for a
/// writer alike, so it wakes them all.
pub proof fn lemma_release_wakes(readers: nat, writer: bool)
    requires
        rw_exclusive(readers, writer),
    ensures
        readers > 0 ==> may_read(writer),
        readers == 1 ==> may_write(rw_step(readers, writer, RwOp::ReadUnlock).0,
            rw_step(readers, writer, RwOp::ReadUnlock).1)
            && read_unlock_wake(rw_step(readers, writer, RwOp::ReadUnlock).0) == Wake::One,
        readers > 1 ==> read_unlock_wake(rw_step(readers, writer, RwOp::ReadUnlock).0)
            == Wake::Nobody,
        writer ==> may_read(rw_step(readers, writer, RwOp::WriteUnlock).1)
            && may_write(rw_step(readers, writer, RwOp::WriteUnlock).0,
            rw_step(readers, writer, RwOp::WriteUnlock).1),
{
}

} // verus!
