use crate::tools::params::ToolParams;
use crate::tools::step::{run1, EffectView, Pending, PendingView, Step, StepView};
use crate::tools::{ExecuteCommandSettings, Tool};
use vstd::prelude::*;

verus! {

/// Reports the state of the working tree.
#[derive(Debug, Clone, Copy)]
pub struct GitStatusTool;

impl Tool for GitStatusTool {
    open spec fn spec_name(&self) -> Seq<char> {
        "git_status"@
    }

    open spec fn spec_description(&self) -> Seq<char> {
        "Gets the current git status of the repository."@
    }

    open spec fn spec_parameters(&self) -> Seq<(Seq<char>, Seq<char>)> {
        Seq::empty()
    }

    open spec fn spec_run(&self, args: Seq<(Seq<char>, Seq<char>)>, is_headless: bool) -> StepView {
        StepView::Perform(
            EffectView::Run { program: "git"@, args: seq!["status"@] },
            PendingView::CommandOutput,
        )
    }

    fn name(&self) -> (out: &'static str) {
        "git_status"
    }

    fn description(&self) -> (out: &'static str) {
        "Gets the current git status of the repository."
    }

    fn parameters(&self) -> (out: Vec<(&'static str, &'static str)>) {
        let params: Vec<(&'static str, &'static str)> = Vec::new();
        params
    }

    fn run(&self, params: &ToolParams, settings: ExecuteCommandSettings) -> (out: Step) {
        Step::Perform(run1("git", "status"), Pending::CommandOutput)
    }
}

} // verus!
