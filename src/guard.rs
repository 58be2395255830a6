//! Stack guard pages: this kernel has none.
use vstd::prelude::*;

verus! {

/// The guard page of the current thread's stack: there is none.
pub fn current() -> (r: Option<usize>)
    ensures
        r is None,
{
    None
}

/// Sets up the main thread's guard page: there is none to set up.
pub fn init() -> (r: Option<usize>)
    ensures
        r is None,
{
    None
}

} // verus!
