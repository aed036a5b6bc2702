//! The command that configures the build of a project.
use crate::config::{ForgeConfig, ForgeConfigView};
use crate::plan::{Step, StepView};
use vstd::prelude::*;

verus! {

/// What `config` was given.
#[derive(Debug)]
pub struct ConfigArgs {
    /// Whether a compile database is made and linked into the project's
    /// root. It is, unless this says no.
    pub compile_commands: Option<bool>,
    /// Flags for the build system's configuration.
    pub extra: Vec<String>,
}

impl ConfigArgs {
    /// Whether a compile database is asked for.
    pub open spec fn wants_database(self) -> bool {
        match self.compile_commands {
            Some(b) => b,
            None => true,
        }
    }

    /// The steps that configure the project `config` as asked.
    pub open spec fn plan(self, config: ForgeConfigView) -> Seq<StepView> {
        config.tools.build_system.configure_plan(self.wants_database(), self.extra.deep_view())
    }

    /// The steps that configure the project `config`: with a compile database
    /// unless the command says no, and with the flags given.
    pub fn process_command(&self, config: &ForgeConfig) -> (r: Vec<Step>)
        ensures
            r.deep_view() == self.plan(config@),
    {
        let compile_cmds = match self.compile_commands {
            Some(b) => b,
            None => true,
        };
        config.configure_builder(compile_cmds, &self.extra)
    }
}

} // verus!
