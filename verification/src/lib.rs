//! A library for managing a spawned child process: validating and tokenizing
//! the command line, buffering the bytes the child writes to standard error,
//! and tracking the process lifecycle (running, exited, killed) as a state
//! machine whose transitions are driven by outcomes reported by the host.
use vstd::prelude::*;

pub mod buffer;
pub mod cmdline;
pub mod lifecycle;

verus! {

pub fn add(left: u64, right: u64) -> (sum: u64)
    requires
        left + right <= u64::MAX,
    ensures
        sum == left + right,
{
    left + right
}

} // verus!
