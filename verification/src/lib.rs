//! Verified core of a build-configuration sweep harness.
//!
//! The crate holds the decisions of the harness: which configurations exist
//! and in which order they are visited, what is written to the toolchain
//! settings file, how the flaky runtime measurement is retried, how the
//! report is laid out, and how each step of a sweep follows from the last.
//! Running processes and touching files is left to the caller.

pub mod commands;
pub mod compress;
pub mod deps;
pub mod measure;
pub mod options;
pub mod report;
pub mod retry;
pub mod settings;
pub mod space;
pub mod sweep;
pub mod text;
