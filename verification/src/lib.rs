//! Job orchestration and workflow execution for a media-library daemon.
//!
//! The library covers the decision logic of the daemon: the deduplicating
//! FIFO job queue that serializes all work onto a single worker, and the
//! workflow runner that stages a source file into a scratchpad, probes each
//! task to decide whether it should run, chains task outputs into inputs,
//! and commits the final result back over the source file atomically.
//! Filesystem access, subprocess execution and configuration parsing are
//! performed by a thin unverified shell that drives these state machines.

pub mod config;
pub mod fs_model;
pub mod job_orchestration;
pub mod staging;
pub mod text;
pub mod workflow;
pub mod workflow_runner;
