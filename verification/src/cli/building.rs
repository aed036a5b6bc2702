//! The command that builds a project.
use crate::config::{ForgeConfig, ForgeConfigView};
use crate::plan::{Step, StepView};
use vstd::prelude::*;

verus! {

/// What `build` was given.
#[derive(Debug)]
pub struct BuildArgs {
    /// Flags for the build.
    pub options: Option<Vec<String>>,
}

impl BuildArgs {
    /// The steps that build the project `config` with the flags given.
    pub open spec fn plan(self, config: ForgeConfigView) -> Seq<StepView> {
        config.tools.build_system.build_plan(self.options.deep_view())
    }

    /// The steps that build the project `config` with the flags given.
    pub fn process_command(&self, config: &ForgeConfig) -> (r: Vec<Step>)
        ensures
            r.deep_view() == self.plan(config@),
    {
        match &self.options {
            Some(flags) => config.build(Some(flags)),
            None => config.build(None),
        }
    }
}

} // verus!
