//! Commands for the system's shell.
use crate::error::{Error, ErrorView};
use crate::plan::{
    no_steps, push_step, Action, ActionView, OnExit, OnExitView, OnFault, OnFaultView, Step,
    StepView,
};
use crate::text::glue2;
use vstd::prelude::*;

verus! {

/// The step that hands `cmd` to the shell. A command that cannot be started
/// is an I/O error; one that reports no success is a custom error that
/// names the command.
pub open spec fn shell_step(cmd: Seq<char>) -> StepView {
    StepView {
        action: ActionView::Shell { command: cmd },
        on_fault: OnFaultView::Io,
        on_exit: OnExitView::Abort(ErrorView::CustomError("Command failed: "@ + cmd)),
    }
}

/// The step of [`shell_step`].
pub fn shell(cmd: &str) -> (r: Step)
    ensures
        r@ == shell_step(cmd@),
{
    Step {
        action: Action::Shell { command: cmd.to_string() },
        on_fault: OnFault::Io,
        on_exit: OnExit::Abort(Error::CustomError(glue2("Command failed: ", cmd))),
    }
}

/// The plan that runs `cmd` in the shell and fails where it does.
pub fn execute_cmd(cmd: &str) -> (r: Vec<Step>)
    ensures
        r.deep_view() == seq![shell_step(cmd@)],
{
    let mut plan = no_steps();
    push_step(&mut plan, shell(cmd));
    plan
}

} // verus!
