use vstd::prelude::*;

verus! {

/// No such process.
pub const ESRCH: i32 = 3;

/// Input/output error: on a PTY master, the slave side has been closed.
pub const EIO: i32 = 5;

/// Resource temporarily unavailable: a non-blocking call would block.
pub const EAGAIN: i32 = 11;

/// Connection timed out.
pub const ETIMEDOUT: i32 = 110;

/// Connection refused.
pub const ECONNREFUSED: i32 = 111;

} // verus!
