//! Interactive shells inside a nested, namespace-isolated init.
//!
//! The library decides and the program around it performs the system calls:
//! - `supervisor` finds the nested init in the process table, says how to
//!   start it, and when it runs already;
//! - `config` and `encoder` turn a shell request into the operations that
//!   write a start-transient-unit call to the service manager, and `bus`
//!   reads the bus library's status codes;
//! - `forward` and `relay` drive a terminal session: probing for the remote
//!   shell, relaying bytes each way in order, and handing back the saved
//!   terminal attributes exactly once;
//! - `bytes` and `errno` hold byte-string helpers and error numbers.

pub mod bus;
pub mod bytes;
pub mod config;
pub mod encoder;
pub mod errno;
pub mod forward;
pub mod relay;
pub mod supervisor;
