//! Core of a cancellable runner for external optimisation workers.
//!
//! A job is one run of a worker process under an identifier chosen by the
//! caller. This crate holds the decisions of such a run: which jobs are still
//! wanted, how the worker is invoked, what the watcher does on each
//! observation of the process, and how the worker's output becomes the job's
//! outcome. Spawning, waiting and killing are left to the caller.

pub mod command;
pub mod decimal;
pub mod decoder;
pub mod error;
pub mod job;
pub mod json;
pub mod outcome;
pub mod preflight;
pub mod registry;
pub mod watcher;
