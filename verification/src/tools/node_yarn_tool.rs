use crate::tools::params::ToolParams;
use crate::tools::step::{
    failure_of, run2, unexpected, unexpected_outcome, EffectView, Outcome, OutcomeView, Pending,
    PendingView, Step, StepView,
};
use crate::tools::{ExecuteCommandSettings, Tool};
use vstd::prelude::*;

verus! {

/// Type-checks the Node project in the current directory.
#[derive(Debug, Clone, Copy)]
pub struct NodeYarnTool;

impl NodeYarnTool {
    /// The shell line that the tool runs.
    pub open spec fn command_line() -> Seq<char> {
        "NODE_OPTIONS=\"--max-old-space-size=8192\" yarn run tsc --incremental"@
    }

    /// The answer to the run: what was printed, or the bare message of the
    /// failure to run it.
    pub open spec fn reported(outcome: OutcomeView) -> Seq<char> {
        match outcome {
            OutcomeView::Exited { success, stdout, stderr } => stdout,
            _ => match failure_of(outcome) {
                Some(message) => message,
                None => unexpected_outcome(),
            },
        }
    }

    /// Answers to the run.
    pub fn after_run(outcome: Outcome) -> (out: String)
        ensures
            out@ == Self::reported(outcome@),
    {
        match outcome {
            Outcome::Exited { success, stdout, stderr } => stdout,
            other => match other.failure() {
                Some(message) => message.clone(),
                None => unexpected(),
            },
        }
    }
}

impl Tool for NodeYarnTool {
    open spec fn spec_name(&self) -> Seq<char> {
        "NodeYarnTool"@
    }

    open spec fn spec_description(&self) -> Seq<char> {
        "Runs `NODE_OPTIONS=\"--max-old-space-size=8192\" yarn run tsc --incremental`"@
    }

    open spec fn spec_parameters(&self) -> Seq<(Seq<char>, Seq<char>)> {
        Seq::empty()
    }

    open spec fn spec_run(&self, args: Seq<(Seq<char>, Seq<char>)>, is_headless: bool) -> StepView {
        StepView::Perform(
            EffectView::Run { program: "sh"@, args: seq!["-c"@, Self::command_line()] },
            PendingView::NodeYarn,
        )
    }

    fn name(&self) -> (out: &'static str) {
        "NodeYarnTool"
    }

    fn description(&self) -> (out: &'static str) {
        "Runs `NODE_OPTIONS=\"--max-old-space-size=8192\" yarn run tsc --incremental`"
    }

    fn parameters(&self) -> (out: Vec<(&'static str, &'static str)>) {
        let params: Vec<(&'static str, &'static str)> = Vec::new();
        params
    }

    fn run(&self, params: &ToolParams, settings: ExecuteCommandSettings) -> (out: Step) {
        Step::Perform(
            run2(
                "sh",
                "-c",
                "NODE_OPTIONS=\"--max-old-space-size=8192\" yarn run tsc --incremental",
            ),
            Pending::NodeYarn,
        )
    }
}

} // verus!
