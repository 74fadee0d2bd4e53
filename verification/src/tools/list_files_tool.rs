use crate::text::{concat2, join, joined};
use crate::tools::params::{optional_text, ParamName, ToolParams};
use crate::tools::step::{
    failure_of, unexpected, unexpected_outcome, Effect, EffectView, Outcome, OutcomeView, Pending,
    PendingView, Step, StepView,
};
use crate::tools::{ExecuteCommandSettings, Tool};
use vstd::prelude::*;

verus! {

/// Lists the entries of a directory.
#[derive(Debug, Clone, Copy)]
pub struct ListFilesTool;

impl Tool for ListFilesTool {
    open spec fn spec_name(&self) -> Seq<char> {
        "list_files"@
    }

    open spec fn spec_description(&self) -> Seq<char> {
        "Lists files in a directory"@
    }

    open spec fn spec_parameters(&self) -> Seq<(Seq<char>, Seq<char>)> {
        seq![("dir"@, "string"@)]
    }

    open spec fn spec_run(&self, args: Seq<(Seq<char>, Seq<char>)>, is_headless: bool) -> StepView {
        StepView::Perform(
            EffectView::ListDir { path: optional_text(args, "dir"@, "."@) },
            PendingView::ListFiles,
        )
    }

    fn name(&self) -> (out: &'static str) {
        "list_files"
    }

    fn description(&self) -> (out: &'static str) {
        "Lists files in a directory"
    }

    fn parameters(&self) -> (out: Vec<(&'static str, &'static str)>) {
        let mut params: Vec<(&'static str, &'static str)> = Vec::new();
        params.push((ParamName::Dir.as_str(), "string"));
        params
    }

    fn run(&self, params: &ToolParams, settings: ExecuteCommandSettings) -> (out: Step) {
        let dir = params.get_string_optional(ParamName::Dir.as_str(), ".");
        Step::Perform(Effect::ListDir { path: dir }, Pending::ListFiles)
    }
}

impl ListFilesTool {
    /// The answer to the listing: the names, one per line, or the failure.
    pub open spec fn listed(outcome: OutcomeView) -> Seq<char> {
        match outcome {
            OutcomeView::Lines(names) => joined(names, "\n"@),
            _ => match failure_of(outcome) {
                Some(message) => "[Error] Failed to list files: "@ + message,
                None => unexpected_outcome(),
            },
        }
    }

    /// Answers to the listing: the names, one per line, or the failure.
    pub fn after_listing(outcome: Outcome) -> (out: String)
        ensures
            out@ == Self::listed(outcome@),
    {
        match outcome {
            Outcome::Lines(names) => join(&names, "\n"),
            other => match other.failure() {
                Some(message) => concat2("[Error] Failed to list files: ", message.as_str()),
                None => unexpected(),
            },
        }
    }
}

} // verus!
