//! The command that builds a project and runs its program.
use crate::config::{ForgeConfig, ForgeConfigView};
use crate::plan::{push_steps, Step, StepView};
use vstd::prelude::*;

verus! {

/// What `run` was given.
#[derive(Debug)]
pub struct RunArgs {
    /// Build in release mode.
    pub release: bool,
    /// Use verbose output.
    pub verbose: bool,
}

impl RunArgs {
    /// The steps that build the project `config` and then run its program.
    pub open spec fn plan(self, config: ForgeConfigView) -> Seq<StepView> {
        config.tools.build_system.build_plan(None) + config.run_plan()
    }

    /// The steps that build the project `config` and then run its program.
    pub fn process_command(&self, config: &ForgeConfig) -> (r: Vec<Step>)
        ensures
            r.deep_view() == self.plan(config@),
    {
        let mut plan = config.build(None);
        push_steps(&mut plan, config.run());
        plan
    }
}

} // verus!
