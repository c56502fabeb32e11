//! Startup and lifecycle supervision for a long-running network node.
//!
//! The library holds the decisions of the node's boot sequence: which
//! configuration snapshots are accepted, which periodic metrics tasks are
//! started and where they write, the order of the startup steps, and the
//! termination gate that keeps the process alive until it is signalled.
//! The process around it performs each step and reports back.

pub mod config;
pub mod metrics;
pub mod supervisor;
pub mod laws;
