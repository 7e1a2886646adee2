//! Keeps named processes on a chosen set of CPU cores and at a chosen
//! scheduling priority, re-applying both whenever they drift.
//!
//! The engine never calls the operating system itself. Discovery results are
//! handed in, and each reconciliation is a step machine that names the next
//! system call to make and takes its answer, so that every decision is made
//! here and proved against its contract.

pub mod codec;
pub mod config;
pub mod control;
pub mod discovery;
pub mod laws;
pub mod log;
pub mod reconcile;
pub mod registry;
pub mod report;
pub mod state;
pub mod text;
pub mod tick;
