//! Scaffolding for C and C++ projects, as plans.
//!
//! The library decides what a project holds and which tools are run to set it
//! up, build it, run it and test it. It touches neither the file system nor
//! any process: every operation hands back a list of [`plan::Step`]s for the
//! caller to carry out, and [`plan::Runner`] says after each of them how the
//! operation goes on.
use vstd::prelude::*;

pub mod blank;
pub mod build_system;
pub mod builder;
pub mod cli;
pub mod compiler;
pub mod config;
pub mod descriptor;
pub mod error;
pub mod json;
pub mod language;
pub mod naming;
pub mod package;
pub mod package_manager;
pub mod paint;
pub mod plan;
pub mod scaffolder;
pub mod table;
pub mod test_framework;
pub mod text;
pub mod tool;
pub mod utils;

pub use config::ForgeConfig;
pub use error::Error;
pub use utils::execute_cmd;

verus! {

} // verus!
