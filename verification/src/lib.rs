//! Per-thread trapping of floating-point error conditions.
//!
//! This crate models the logic of a debugging aid that turns silent
//! floating-point error conditions (divide by zero, invalid operation) into
//! deterministic process termination. A thread opts in by activating; the
//! activation configures the thread's floating-point control registers and
//! installs a process-wide fault handler exactly once. When a trap fires, the
//! fault handler captures a raw stack into a fixed buffer, hands it to a
//! reporter thread through a lock-free beacon handshake, waits a bounded
//! time, and then terminates the process unconditionally.
//!
//! The decision logic of every step lives here, verified: the activation
//! state machine, the beacon protocol, the frame buffer, the register bit
//! manipulation, the trap classification, and the report trimming. The thin
//! layer that touches the operating system (signal registration, raw register
//! access, the actual fault context) stands outside this library and calls
//! into it for every decision.

pub mod activation;
pub mod backtrace;
pub mod frames;
pub mod protocol;
pub mod stack;
pub mod text;
pub mod traps;
pub mod unix;
pub mod windows;
pub mod x86_64;
