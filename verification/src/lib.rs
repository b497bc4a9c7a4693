//! Verified core of an AUR build server: the package store, the worker
//! pool, the dispatch decisions of the orchestrator, the build-output
//! bookkeeping, configuration merging and the command-line helpers.
pub mod common;
pub mod server;
pub mod cli;
pub mod standalone;
