use crate::tools::params::{required_text, ToolParams};
use crate::tools::step::{
    error, error_reply, failure_of, unexpected, unexpected_outcome, Effect, EffectView, Outcome,
    OutcomeView, Pending, PendingView, Step, StepView,
};
use crate::tools::{ExecuteCommandSettings, Tool};
use vstd::prelude::*;

verus! {

/// Hands a task to a nested session and answers with what it says. A nested
/// session has the ordinary tools but not this one.
#[derive(Debug, Clone, Copy)]
pub struct SubMinerveTool;

impl SubMinerveTool {
    /// The answer to the nested session: what it said, or the failure.
    pub open spec fn returned(outcome: OutcomeView) -> Seq<char> {
        match outcome {
            OutcomeView::Text(said) => said,
            _ => match failure_of(outcome) {
                Some(message) => error_reply(message),
                None => unexpected_outcome(),
            },
        }
    }

    /// Answers to the nested session.
    pub fn after_session(outcome: Outcome) -> (out: String)
        ensures
            out@ == Self::returned(outcome@),
    {
        match outcome {
            Outcome::Text(said) => said,
            other => match other.failure() {
                Some(message) => error(message.as_str()),
                None => unexpected(),
            },
        }
    }
}

impl Tool for SubMinerveTool {
    open spec fn spec_name(&self) -> Seq<char> {
        "subminerve"@
    }

    open spec fn spec_description(&self) -> Seq<char> {
        "Hands a task to a nested assistant session and returns its answer."@
    }

    open spec fn spec_parameters(&self) -> Seq<(Seq<char>, Seq<char>)> {
        seq![("prompt"@, "string"@)]
    }

    open spec fn spec_run(&self, args: Seq<(Seq<char>, Seq<char>)>, is_headless: bool) -> StepView {
        match required_text(args, "prompt"@) {
            Ok(prompt) => StepView::Perform(EffectView::SubAgent { prompt }, PendingView::SubAgent),
            Err(answer) => StepView::Reply(answer),
        }
    }

    fn name(&self) -> (out: &'static str) {
        "subminerve"
    }

    fn description(&self) -> (out: &'static str) {
        "Hands a task to a nested assistant session and returns its answer."
    }

    fn parameters(&self) -> (out: Vec<(&'static str, &'static str)>) {
        let mut params: Vec<(&'static str, &'static str)> = Vec::new();
        params.push(("prompt", "string"));
        params
    }

    fn run(&self, params: &ToolParams, settings: ExecuteCommandSettings) -> (out: Step) {
        match params.get_string("prompt") {
            Ok(prompt) => Step::Perform(Effect::SubAgent { prompt }, Pending::SubAgent),
            Err(answer) => Step::Reply(answer),
        }
    }
}

} // verus!
