//! Content-addressed cache of isolated runtime environments.
//!
//! The library holds the decisions of the tool: how an environment is
//! identified, when a lockfile is stale, how a cache entry is resolved or
//! built (and torn down again when the build fails), and how the external
//! package engine is located and unpacked. Everything that touches the disk,
//! the network or a child process is done by the caller, which hands the
//! results back as plain values.

pub mod blueprint;
pub mod drift;
pub mod engine;
pub mod holotree;
pub mod identity;
pub mod project;
