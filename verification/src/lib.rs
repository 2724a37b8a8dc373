//! Service lifecycle management and command-line decisions for the packs tool.
//!
//! - [`timespan`]: a verified stand-in for `std::time::Duration`.
//! - [`runnable`]: what a lifecycle knows of each runnable it manages.
//! - [`lifecycle`]: the builder that validates runnables and the lifecycle it yields.
//! - [`cli`]: subcommand names and the decisions behind configuration loading.

pub mod cli;
pub mod lifecycle;
pub mod runnable;
pub mod timespan;
