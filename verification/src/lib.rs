//! d-sh: build container images for a catalog of application descriptors.
//!
//! The library is organised around a small set of helper traits that stand for
//! the process boundary (terminal, filesystem, container engine, fetch tool).
//! Every call through a helper is recorded in a ghost event log, so the
//! contracts of the orchestration code can say which calls were made, with
//! which arguments, and in which order.

pub mod command;
pub mod config;
pub mod docker;
pub mod download;
pub mod help;
pub mod io;
pub mod log;
pub mod process;
pub mod strutil;
pub mod template;
pub mod yaml;
