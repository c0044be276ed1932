//! A single-task execution watchdog: the decision logic behind running one
//! command under wall-clock, memory and captured-output ceilings.
//!
//! The crate holds the verified core: bounded output capture, the memory
//! counter parser, the limit-enforcement state machine, group termination,
//! and result assembly. The surrounding process plumbing (spawning, pipes,
//! threads, the polling clock) lives outside and feeds plain values in.

pub mod capture;
pub mod monitor;
pub mod sampler;
pub mod task;
pub mod terminate;
