use crate::text::{concat2, contains, contains_text};
use crate::tools::params::{required_text, ParamName, ToolParams};
use crate::tools::step::{
    unexpected, unexpected_outcome, Effect, EffectView, Outcome, OutcomeView, Pending, PendingView,
    Step, StepView,
};
use crate::tools::{ExecuteCommandSettings, Tool};
use vstd::prelude::*;

verus! {

/// Shows the content of a file.
#[derive(Debug, Clone, Copy)]
pub struct ShowFileTool;

impl Tool for ShowFileTool {
    open spec fn spec_name(&self) -> Seq<char> {
        "show_file"@
    }

    open spec fn spec_description(&self) -> Seq<char> {
        "Shows the content of a file."@
    }

    open spec fn spec_parameters(&self) -> Seq<(Seq<char>, Seq<char>)> {
        seq![("filepath"@, "string"@)]
    }

    open spec fn spec_run(&self, args: Seq<(Seq<char>, Seq<char>)>, is_headless: bool) -> StepView {
        match required_text(args, "filepath"@) {
            Ok(path) => StepView::Perform(EffectView::ReadFile { path }, PendingView::ShowFile),
            Err(answer) => StepView::Reply(answer),
        }
    }

    fn name(&self) -> (out: &'static str) {
        "show_file"
    }

    fn description(&self) -> (out: &'static str) {
        "Shows the content of a file."
    }

    fn parameters(&self) -> (out: Vec<(&'static str, &'static str)>) {
        let mut params: Vec<(&'static str, &'static str)> = Vec::new();
        params.push((ParamName::FilePath.as_str(), "string"));
        params
    }

    fn run(&self, params: &ToolParams, settings: ExecuteCommandSettings) -> (out: Step) {
        match params.get_string(ParamName::FilePath.as_str()) {
            Ok(path) => Step::Perform(Effect::ReadFile { path }, Pending::ShowFile),
            Err(answer) => Step::Reply(answer),
        }
    }
}

impl ShowFileTool {
    /// The answer to the read: the content; a note that the file does not
    /// exist, where it is missing or the system's message says so; else the
    /// failure.
    pub open spec fn shown(outcome: OutcomeView) -> Seq<char> {
        match outcome {
            OutcomeView::Text(content) => content,
            OutcomeView::Missing(message) => "[file does not exist]"@,
            OutcomeView::Failed(message) => Self::read_failure(message),
            OutcomeView::Broken(message) => Self::read_failure(message),
            _ => unexpected_outcome(),
        }
    }

    /// The answer to a read that failed with `message`.
    pub open spec fn read_failure(message: Seq<char>) -> Seq<char> {
        if contains(message, "No such file or directory"@) {
            "[file does not exist]"@
        } else {
            "[Error] Failed to read file: "@ + message
        }
    }

    fn failed(message: &str) -> (out: String)
        ensures
            out@ == Self::read_failure(message@),
    {
        if contains_text(message, "No such file or directory") {
            "[file does not exist]".to_owned()
        } else {
            concat2("[Error] Failed to read file: ", message)
        }
    }

    /// Answers to the read.
    pub fn after_read(outcome: Outcome) -> (out: String)
        ensures
            out@ == Self::shown(outcome@),
    {
        match outcome {
            Outcome::Text(content) => content,
            Outcome::Missing(message) => "[file does not exist]".to_owned(),
            Outcome::Failed(message) => Self::failed(message.as_str()),
            Outcome::Broken(message) => Self::failed(message.as_str()),
            _ => unexpected(),
        }
    }
}

} // verus!
