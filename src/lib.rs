//! Decision logic for building, signing and deploying a kernel driver to a
//! remote test machine: remote command composition, service state
//! classification, the service lifecycle and deployment state machines, and
//! incremental tailing of the mirrored log.

pub mod protocol;
pub mod service;
pub mod tail;
pub mod deploy;
pub mod tasks;
pub mod toolchain;
