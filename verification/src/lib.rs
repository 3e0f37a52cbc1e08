//! A verified core for a download-task orchestrator.
//!
//! The library supervises zero-to-many concurrent external-process download
//! jobs: it keeps one task record per download, tracks which tasks have a
//! live process, decides every lifecycle transition (start, pause, resume,
//! cancel, query), and drives each job through a supervisor state machine
//! (resolve the tool, fetch the manifest, persist it, spawn the process,
//! await it under a timeout, finalize). All decisions are made here over
//! plain values and are verified; the surrounding process — the actual HTTP
//! fetch, file writes, process spawning and killing, clocks and randomness —
//! lives outside the library and feeds results back in as events.

pub mod catalog;
pub mod handles;
pub mod naming;
pub mod orchestrator;
pub mod registry;
pub mod supervisor;
pub mod task;
