//! Verified core of a record-processing pipeline.
//!
//! A run drives a numbered sequence of records through a fixed set of stages
//! (rate-limit, authenticate, fetch, augment, persist), tallies the outcome of
//! each record into a report, honours a one-shot interrupt signal, and renders
//! a final textual report.  The modules here hold the logic of that run — the
//! deterministic fetch-outcome rule, the record source, the
//! progress/interrupt aggregator, a sequential pipeline executor, and the
//! report renderer — each with a contract stating exactly what it computes.
//! The surrounding process (argument parsing, simulated delays, terminal
//! output, signal installation) lives outside this library and feeds it plain
//! values.

pub mod types;

pub mod stages;

pub mod report;

pub mod reporter;

pub mod executor;

pub mod render;

pub mod laws;
