//! Core of a micro-benchmark harness that studies how an outer task-parallel
//! pool composes with the per-call thread pool of a dynamically loaded
//! numerical library.
//!
//! The library models and verifies the parts with real design tension: the
//! declarative symbol tables and the atomic resolution step that turns them
//! into a complete binding, the process-wide one-shot binding cell, the
//! thread-count coordination protocol between the outer scheduler and the
//! inner library, the deterministic workload generator, and the scenario
//! selection from the command line.  Opening dynamic objects, spawning the
//! worker pool and the foreign compute calls themselves are left to a thin
//! unverified shell that feeds plain values into these functions.

pub mod binding;
pub mod cli;
pub mod counts;
pub mod errors;
pub mod facade;
pub mod policy;
pub mod scheduler;
pub mod symbols;
pub mod workload;

pub use errors::BindingError;
pub use errors::UsageError;
