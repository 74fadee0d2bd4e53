use crate::text::{concat2, concat3};
use crate::tools::params::{lookup, optional_text, ToolParams};
use crate::tools::step::{
    failure_of, unexpected, unexpected_outcome, Effect, EffectView, Outcome, OutcomeView, Pending,
    PendingView, Step, StepView,
};
use crate::tools::{ExecuteCommandSettings, Tool};
use vstd::prelude::*;

verus! {

/// Creates a file with a given content.
#[derive(Debug, Clone, Copy)]
pub struct CreateFileTool;

impl CreateFileTool {
    /// The answer to the write of the file at `path`.
    pub open spec fn created(path: Seq<char>, outcome: OutcomeView) -> Seq<char> {
        match outcome {
            OutcomeView::Done => "\u{2705} Successfully created file "@ + path,
            _ => match failure_of(outcome) {
                Some(message) => "[Error] Failed to create file "@ + path + ": "@ + message,
                None => unexpected_outcome(),
            },
        }
    }

    /// Answers to the write of the file at `path`.
    pub fn after_write(path: String, outcome: Outcome) -> (out: String)
        ensures
            out@ == Self::created(path@, outcome@),
    {
        match outcome {
            Outcome::Done => concat2("\u{2705} Successfully created file ", path.as_str()),
            other => match other.failure() {
                Some(message) => {
                    let mut out = concat3("[Error] Failed to create file ", path.as_str(), ": ");
                    out.append(message.as_str());
                    out
                },
                None => unexpected(),
            },
        }
    }
}

impl Tool for CreateFileTool {
    open spec fn spec_name(&self) -> Seq<char> {
        "create_file"@
    }

    open spec fn spec_description(&self) -> Seq<char> {
        "Creates a new file with specified content."@
    }

    open spec fn spec_parameters(&self) -> Seq<(Seq<char>, Seq<char>)> {
        seq![("filepath"@, "string"@), ("content"@, "optional string"@)]
    }

    open spec fn spec_run(&self, args: Seq<(Seq<char>, Seq<char>)>, is_headless: bool) -> StepView {
        match lookup(args, "filepath"@) {
            Some(path) => StepView::Perform(
                EffectView::WriteFile { path, content: optional_text(args, "content"@, ""@) },
                PendingView::CreateFile { path },
            ),
            None => StepView::Reply("[Error] Missing 'filepath' parameter."@),
        }
    }

    fn name(&self) -> (out: &'static str) {
        "create_file"
    }

    fn description(&self) -> (out: &'static str) {
        "Creates a new file with specified content."
    }

    fn parameters(&self) -> (out: Vec<(&'static str, &'static str)>) {
        let mut params: Vec<(&'static str, &'static str)> = Vec::new();
        params.push(("filepath", "string"));
        params.push(("content", "optional string"));
        params
    }

    fn run(&self, params: &ToolParams, settings: ExecuteCommandSettings) -> (out: Step) {
        match params.get("filepath") {
            Some(path) => {
                let content = params.get_string_optional("content", "");
                Step::Perform(
                    Effect::WriteFile { path: path.clone(), content },
                    Pending::CreateFile { path: path.clone() },
                )
            },
            None => Step::Reply("[Error] Missing 'filepath' parameter.".to_owned()),
        }
    }
}

} // verus!
