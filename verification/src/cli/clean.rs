//! The command that cleans a project of build results.
use crate::config::{clean_plan, ForgeConfig, ForgeConfigView};
use crate::plan::{Step, StepView};
use vstd::prelude::*;

verus! {

/// What `clean` was given: nothing.
#[derive(Debug)]
pub struct CleanArgs {}

impl CleanArgs {
    /// The steps that clean a project.
    pub open spec fn plan(self, config: ForgeConfigView) -> Seq<StepView> {
        clean_plan(config.directory)
    }

    /// The steps that clean the project `config`.
    pub fn process_command(&self, config: &ForgeConfig) -> (r: Vec<Step>)
        ensures
            r.deep_view() == self.plan(config@),
    {
        config.clean()
    }
}

} // verus!
