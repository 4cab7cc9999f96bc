//! Runtime core of a container shim: lifecycle of one sandboxed workload,
//! one-shot publication of its exit status, and start-up role selection.

pub mod cell;
pub mod completion;
pub mod error;
pub mod instance;
pub mod role;
pub mod signal;
pub mod status;
