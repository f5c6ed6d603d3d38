//! Unattended versioning of a working directory.
//!
//! A burst of file-system activity is coalesced by a debounce engine into a
//! single trigger; each trigger is turned into one descriptive commit and,
//! where the watcher is configured for it, a push to the remote.
//!
//! The library holds the decisions of that pipeline as verified functions on
//! plain values. Whoever embeds it performs the file-system notification, the
//! timers and the version-control operations, and hands the results back.

pub mod backend;
pub mod cli;
pub mod config;
pub mod debouncer;
pub mod file_utils;
pub mod firing;
pub mod git;
pub mod paths;
pub mod remote;
pub mod systemd;
pub mod text;
pub mod watcher;

pub use crate::config::Config;
