use crate::text::{concat2, concat3};
use crate::tools::params::{required_text, ParamName, ToolParams};
use crate::tools::step::{
    failure_of, unexpected, unexpected_outcome, Effect, EffectView, Outcome, OutcomeView, Pending,
    PendingView, Step, StepView,
};
use crate::tools::{ExecuteCommandSettings, Tool};
use vstd::prelude::*;

verus! {

/// Replaces the whole content of a file.
#[derive(Debug, Clone, Copy)]
pub struct SetWholeFileContentsTool;

impl SetWholeFileContentsTool {
    /// The answer to the write of the file at `path`.
    pub open spec fn written(path: Seq<char>, outcome: OutcomeView) -> Seq<char> {
        match outcome {
            OutcomeView::Done => "Successfully set contents of file: "@ + path,
            _ => match failure_of(outcome) {
                Some(message) => "[Error] Failed to write to file "@ + path + ": "@ + message,
                None => unexpected_outcome(),
            },
        }
    }

    /// Answers to the write of the file at `path`.
    pub fn after_write(path: String, outcome: Outcome) -> (out: String)
        ensures
            out@ == Self::written(path@, outcome@),
    {
        match outcome {
            Outcome::Done => concat2("Successfully set contents of file: ", path.as_str()),
            other => match other.failure() {
                Some(message) => {
                    let mut out = concat3("[Error] Failed to write to file ", path.as_str(), ": ");
                    out.append(message.as_str());
                    out
                },
                None => unexpected(),
            },
        }
    }
}

impl Tool for SetWholeFileContentsTool {
    open spec fn spec_name(&self) -> Seq<char> {
        "set_whole_file_contents"@
    }

    open spec fn spec_description(&self) -> Seq<char> {
        "Sets the entire contents of a file to the provided content. Only use this for files you fully understand."@
    }

    open spec fn spec_parameters(&self) -> Seq<(Seq<char>, Seq<char>)> {
        seq![("filepath"@, "string"@), ("content"@, "string"@)]
    }

    open spec fn spec_run(&self, args: Seq<(Seq<char>, Seq<char>)>, is_headless: bool) -> StepView {
        match required_text(args, "filepath"@) {
            Ok(path) => match required_text(args, "content"@) {
                Ok(content) => StepView::Perform(
                    EffectView::WriteFile { path, content },
                    PendingView::SetContents { path },
                ),
                Err(answer) => StepView::Reply(answer),
            },
            Err(answer) => StepView::Reply(answer),
        }
    }

    fn name(&self) -> (out: &'static str) {
        "set_whole_file_contents"
    }

    fn description(&self) -> (out: &'static str) {
        "Sets the entire contents of a file to the provided content. Only use this for files you fully understand."
    }

    fn parameters(&self) -> (out: Vec<(&'static str, &'static str)>) {
        let mut params: Vec<(&'static str, &'static str)> = Vec::new();
        params.push((ParamName::FilePath.as_str(), "string"));
        params.push((ParamName::Content.as_str(), "string"));
        params
    }

    fn run(&self, params: &ToolParams, settings: ExecuteCommandSettings) -> (out: Step) {
        let path = match params.get_string(ParamName::FilePath.as_str()) {
            Ok(path) => path,
            Err(answer) => {
                return Step::Reply(answer);
            },
        };
        let content = match params.get_string(ParamName::Content.as_str()) {
            Ok(content) => content,
            Err(answer) => {
                return Step::Reply(answer);
            },
        };
        let keep = path.clone();
        Step::Perform(Effect::WriteFile { path, content }, Pending::SetContents { path: keep })
    }
}

} // verus!
