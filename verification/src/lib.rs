//! Core runtime of a service wrapper: it runs an ordinary executable as a
//! managed background service under an operating system's service control
//! manager (SCM). The wrapper speaks the SCM's lifecycle protocol on one side
//! and supervises a plain child process on the other.
//!
//! This crate holds the decision logic of that runtime, verified:
//! - `policy`: the restart-policy engine, a pure function from policy, exit
//!   outcome and attempt history to a restart decision;
//! - `engine`: the control-loop state machine that owns all lifecycle state
//!   and turns control requests and exit events into supervisor actions;
//! - `status`: the status reporter that maintains the SCM's
//!   checkpoint/wait-hint progress contract;
//! - `relay`: the record-building and error-classification rules of the
//!   child-output relay;
//! - `logging`: the path and naming computations of the log configuration.
//!
//! All I/O — registering with the SCM, spawning and killing the child,
//! timers, pipes — lives outside this crate: a driver performs each emitted
//! `Action` and feeds the resulting `Event` back into the state machine.

pub mod engine;
pub mod logging;
pub mod policy;
pub mod relay;
pub mod status;
