use vstd::prelude::*;
use crate::errno::{ECONNREFUSED, ETIMEDOUT};

verus! {

/// How long the start-transient-unit call may wait for its reply, in microseconds.
pub const CALL_TIMEOUT_USEC: u64 = 3_000_000;

/// How often connecting to the system bus is tried while it refuses.
pub const CONNECT_ATTEMPTS: u32 = 10;

/// The pause between two connection attempts, in milliseconds.
pub const CONNECT_PAUSE_MS: u64 = 500;

/// The outcome of a bus library call from its return value: a negative
/// value is the negated error number.
pub fn bus_status(v: i32) -> (r: Result<(), u32>)
    ensures
        v >= 0 ==> r == Ok::<(), u32>(()),
        v < 0 ==> r == Err::<(), u32>((-v) as u32),
{
    if v >= 0 {
        Ok(())
    } else {
        let code: i64 = -(v as i64);
        Err(code as u32)
    }
}

/// What to do after a failed attempt to connect to the system bus.
#[derive(Clone, Copy, Debug, PartialEq, Eq, Structural)]
pub enum ConnectStep {
    /// Sleep this many milliseconds, then try again.
    Retry(u64),
    /// Give up with this error.
    Fail(i32),
}

/// The step after the attempt numbered `attempt` (from 1) failed with `e`:
/// a refused connection is tried again up to `CONNECT_ATTEMPTS` times in
/// all, and then reported as a timeout; any other error at once.
pub open spec fn connect_step_spec(attempt: u32, e: i32) -> ConnectStep {
    if e == ECONNREFUSED {
        if attempt < CONNECT_ATTEMPTS {
            ConnectStep::Retry(CONNECT_PAUSE_MS)
        } else {
            ConnectStep::Fail(ETIMEDOUT)
        }
    } else {
        ConnectStep::Fail(e)
    }
}

/// The step after the attempt numbered `attempt` (from 1) failed with `e`.
pub fn connect_step(attempt: u32, e: i32) -> (r: ConnectStep)
    ensures
        r == connect_step_spec(attempt, e),
{
    if e == ECONNREFUSED {
        if attempt < CONNECT_ATTEMPTS {
            ConnectStep::Retry(CONNECT_PAUSE_MS)
        } else {
            ConnectStep::Fail(ETIMEDOUT)
        }
    } else {
        ConnectStep::Fail(e)
    }
}

} // verus!
