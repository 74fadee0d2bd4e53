use crate::tools::params::ToolParams;
use crate::tools::step::{run2, EffectView, Pending, PendingView, Step, StepView};
use crate::tools::{ExecuteCommandSettings, Tool};
use vstd::prelude::*;

verus! {

/// Reports the changes that are staged.
#[derive(Debug, Clone, Copy)]
pub struct GitDiffCachedTool;

impl Tool for GitDiffCachedTool {
    open spec fn spec_name(&self) -> Seq<char> {
        "git_diff_cached"@
    }

    open spec fn spec_description(&self) -> Seq<char> {
        "Gets the current git diff of the repository."@
    }

    open spec fn spec_parameters(&self) -> Seq<(Seq<char>, Seq<char>)> {
        Seq::empty()
    }

    open spec fn spec_run(&self, args: Seq<(Seq<char>, Seq<char>)>, is_headless: bool) -> StepView {
        StepView::Perform(
            EffectView::Run { program: "git"@, args: seq!["diff"@, "--cached"@] },
            PendingView::CommandOutput,
        )
    }

    fn name(&self) -> (out: &'static str) {
        "git_diff_cached"
    }

    fn description(&self) -> (out: &'static str) {
        "Gets the current git diff of the repository."
    }

    fn parameters(&self) -> (out: Vec<(&'static str, &'static str)>) {
        let params: Vec<(&'static str, &'static str)> = Vec::new();
        params
    }

    fn run(&self, params: &ToolParams, settings: ExecuteCommandSettings) -> (out: Step) {
        Step::Perform(run2("git", "diff", "--cached"), Pending::CommandOutput)
    }
}

} // verus!
