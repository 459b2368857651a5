//! Fleet deployment orchestration: the decisions behind a concurrent,
//! per-host rebuild of a set of machines.
//!
//! Nothing here spawns a process or sleeps. Every function maps plain values
//! to plain values: an inventory and a request to the command lines to run,
//! the result of one step to the next step, a set of finished tasks to the
//! ordered outcome list. The caller performs the steps.

pub mod args;
pub mod commands;
pub mod config;
pub mod deploy;
pub mod phases;
pub mod recovery;
pub mod run_util;
pub mod style;
