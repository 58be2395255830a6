//! The decisions around a kernel thread's life: how large a stack to ask for,
//! what the kernel's answer to a creation request means, how long to sleep in
//! the kernel's unit, and whether a join ended normally.
use vstd::prelude::*;

verus! {

/// The smallest stack a new thread is given, in bytes.
pub const DEFAULT_MIN_STACK_SIZE: usize = 4096;

/// The timeout handed to the kernel's join: it waits for as long as it takes.
pub const JOIN_FOREVER: u64 = 0xFFFF_FFFF_FFFF_FFFF;

/// Nanoseconds in a second.
pub const NANOS_PER_SEC: u64 = 1_000_000_000;

/// Status codes of the kernel's thread-creation call.
pub const THRD_BUSY: i32 = 1;
pub const THRD_ERROR: i32 = 2;
pub const THRD_NOMEM: i32 = 3;
pub const THRD_SUCCESS: i32 = 4;
pub const THRD_TIMEDOUT: i32 = 5;

/// Why a thread could not be created.
#[derive(PartialEq, Eq, Structural, Clone, Copy, Debug)]
pub enum SpawnError {
    /// The kernel ran out of memory or of thread slots.
    ResourceExhausted,
    /// The kernel refused the arguments, or failed inside.
    InvalidArgument,
    /// The kernel was busy.
    Busy,
    /// The kernel timed out.
    TimedOut,
    /// A status code the kernel does not document, kept as it came.
    Other(i32),
}

/// The meaning of a status code of the kernel's thread-creation call.
pub open spec fn create_status_spec(code: i32) -> Result<(), SpawnError> {
    if code == THRD_SUCCESS {
        Ok(())
    } else if code == THRD_NOMEM {
        Err(SpawnError::ResourceExhausted)
    } else if code == THRD_ERROR {
        Err(SpawnError::InvalidArgument)
    } else if code == THRD_BUSY {
        Err(SpawnError::Busy)
    } else if code == THRD_TIMEDOUT {
        Err(SpawnError::TimedOut)
    } else {
        Err(SpawnError::Other(code))
    }
}

/// The nanoseconds that the kernel is asked to sleep for a duration of
/// `secs` seconds and `subsec_nanos` nanoseconds: the exact count where it
/// fits the kernel's signed 64-bit unit, and the largest such value otherwise.
pub open spec fn sleep_nanos_spec(secs: u64, subsec_nanos: u32) -> int {
    let exact = secs * NANOS_PER_SEC + subsec_nanos;
    if exact > i64::MAX { i64::MAX as int } else { exact }
}

/// Reads a status code of the kernel's thread-creation call.
pub fn create_status(code: i32) -> (r: Result<(), SpawnError>)
    ensures
        r == create_status_spec(code),
{
    if code == THRD_SUCCESS {
        Ok(())
    } else if code == THRD_NOMEM {
        Err(SpawnError::ResourceExhausted)
    } else if code == THRD_ERROR {
        Err(SpawnError::InvalidArgument)
    } else if code == THRD_BUSY {
        Err(SpawnError::Busy)
    } else if code == THRD_TIMEDOUT {
        Err(SpawnError::TimedOut)
    } else {
        Err(SpawnError::Other(code))
    }
}

/// The stack size to ask for: the request, but never under the floor.
pub fn effective_stack_size(stack: usize) -> (r: usize)
    ensures
        r == (if stack > DEFAULT_MIN_STACK_SIZE { stack } else { DEFAULT_MIN_STACK_SIZE }),
        r >= stack,
        r >= DEFAULT_MIN_STACK_SIZE,
{
    if stack > DEFAULT_MIN_STACK_SIZE {
        stack
    } else {
        DEFAULT_MIN_STACK_SIZE
    }
}

/// A live kernel thread, named by its kernel handle. Joining consumes it;
/// dropping it unjoined lets the kernel thread run on by itself.
pub struct Thread {
    handle: u64,
}

impl Thread {
    /// The kernel handle.
    pub closed spec fn handle(&self) -> u64 {
        self.handle
    }

    /// The thread that a creation call returning `handle` produced. A null
    /// handle means the kernel had no room for another thread; the callable
    /// then stays with the caller.
    pub fn new(handle: u64) -> (r: Result<Thread, SpawnError>)
        ensures
            handle == 0 ==> r == Err::<Thread, SpawnError>(SpawnError::ResourceExhausted),
            handle != 0 ==> r is Ok && r->Ok_0.handle() == handle,
    {
        if handle == 0 {
            Err(SpawnError::ResourceExhausted)
        } else {
            Ok(Thread { handle })
        }
    }

    /// The thread that a creation call answering `code`, with `handle`,
    /// produced. On any error the callable stays with the caller.
    pub fn from_status(code: i32, handle: u64) -> (r: Result<Thread, SpawnError>)
        ensures
            match create_status_spec(code) {
                Ok(()) => r is Ok && r->Ok_0.handle() == handle,
                Err(e) => r == Err::<Thread, SpawnError>(e),
            },
    {
        match create_status(code) {
            Ok(()) => Ok(Thread { handle }),
            Err(e) => Err(e),
        }
    }

    /// Threads have no names on this kernel: the name is dropped.
    pub fn set_name(_name: &str) {
    }

    /// The nanoseconds to hand the kernel's sleep call for a duration of
    /// `secs` seconds and `subsec_nanos` nanoseconds; it never wraps.
    pub fn sleep_nanos(secs: u64, subsec_nanos: u32) -> (r: i64)
        ensures
            r == sleep_nanos_spec(secs, subsec_nanos),
            r >= 0,
    {
        let max: u64 = 0x7FFF_FFFF_FFFF_FFFF;
        if secs > max / NANOS_PER_SEC {
            assert(secs * NANOS_PER_SEC > max) by (nonlinear_arith)
                requires secs > max / NANOS_PER_SEC, NANOS_PER_SEC == 1_000_000_000;
            return 0x7FFF_FFFF_FFFF_FFFF;
        }
        assert(secs * NANOS_PER_SEC <= max) by (nonlinear_arith)
            requires secs <= max / NANOS_PER_SEC, NANOS_PER_SEC == 1_000_000_000;
        let whole: u64 = secs * NANOS_PER_SEC;
        let part: u64 = subsec_nanos as u64;
        if whole > max - part {
            0x7FFF_FFFF_FFFF_FFFF
        } else {
            (whole + part) as i64
        }
    }

    /// The nanoseconds to hand the kernel's sleep call to give up the rest
    /// of the time slice.
    pub fn yield_nanos() -> (r: i64)
        ensures
            r == 0,
    {
        0
    }

    /// Whether the status of a join reports that the thread ended normally.
    pub fn join_succeeded(status: i32) -> (r: bool)
        ensures
            r == (status == 0),
    {
        status == 0
    }

    /// The kernel handle.
    pub fn id(&self) -> (r: u64)
        ensures
            r == self.handle(),
    {
        self.handle
    }

    /// Gives up the thread, returning its kernel handle.
    pub fn into_id(self) -> (r: u64)
        ensures
            r == self.handle(),
    {
        self.handle
    }
}

/// The sleep handed to the kernel never wraps: it is never negative, is the
/// exact duration wherever that fits, and a longer duration never gives a
/// shorter sleep.
pub proof fn lemma_sleep_never_wraps(secs: u64, nanos: u32, secs2: u64, nanos2: u32)
    ensures
        0 <= sleep_nanos_spec(secs, nanos) <= i64::MAX,
        secs * NANOS_PER_SEC + nanos <= i64::MAX
            ==> sleep_nanos_spec(secs, nanos) == secs * NANOS_PER_SEC + nanos,
        secs * NANOS_PER_SEC + nanos <= secs2 * NANOS_PER_SEC + nanos2
            ==> sleep_nanos_spec(secs, nanos) <= sleep_nanos_spec(secs2, nanos2),
{
    assert(secs * NANOS_PER_SEC >= 0) by (nonlinear_arith);
}

} // verus!
