//! Client-side state logic of a small service dashboard: the liveness flag
//! that a periodic poller keeps current, and the start-up flow that obtains
//! and persists a client identifier.
//!
//! Nothing here performs a request, reads a clock or touches storage. Each
//! flow is a transition function: the caller reports what happened outside
//! (a poll came back, a timer fired) and is told what to do next.

pub mod bootstrap;
pub mod identifier;
pub mod monitor;
pub mod remote;
pub mod runs;
pub mod shell;
pub mod status;
pub mod store;
