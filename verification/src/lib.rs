//! Declarative file linking: a configuration names pairs of source and
//! destination paths, and every pair becomes a hard link or a symbolic link.
//!
//! The library holds the configuration model and the decisions of a run. It
//! never touches the file system: it says which operation comes next, the
//! caller performs it and hands the outcome back.

pub mod action;
pub mod config;
pub mod error;
pub mod path;
pub mod run;
pub mod trace;

use vstd::prelude::*;

verus! {

/// The name of the configuration file, looked for in the current directory.
pub const CONFIG_FILE: &'static str = "link.toml";

} // verus!
