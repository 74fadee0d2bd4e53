use crate::tools::params::{lookup, ToolParams};
use crate::tools::step::{
    unexpected, unexpected_outcome, Effect, EffectView, Outcome, OutcomeView, Pending, PendingView,
    Step, StepView,
};
use crate::tools::{ExecuteCommandSettings, Tool};
use vstd::prelude::*;

verus! {

/// Fetches what is behind a URL as plain text.
#[derive(Debug, Clone, Copy)]
pub struct GetUrlTool;

impl GetUrlTool {
    /// The answer to the fetch: the body, or which of the two halves failed.
    pub open spec fn fetched(outcome: OutcomeView) -> Seq<char> {
        match outcome {
            OutcomeView::Text(body) => body,
            OutcomeView::Broken(message) => "[Error] Failed to convert response to text."@,
            OutcomeView::Failed(message) => "[Error] Failed to fetch the URL."@,
            OutcomeView::Missing(message) => "[Error] Failed to fetch the URL."@,
            _ => unexpected_outcome(),
        }
    }

    /// Answers to the fetch.
    pub fn after_fetch(outcome: Outcome) -> (out: String)
        ensures
            out@ == Self::fetched(outcome@),
    {
        match outcome {
            Outcome::Text(body) => body,
            Outcome::Broken(message) => "[Error] Failed to convert response to text.".to_owned(),
            Outcome::Failed(message) => "[Error] Failed to fetch the URL.".to_owned(),
            Outcome::Missing(message) => "[Error] Failed to fetch the URL.".to_owned(),
            _ => unexpected(),
        }
    }
}

impl Tool for GetUrlTool {
    open spec fn spec_name(&self) -> Seq<char> {
        "get_url"@
    }

    open spec fn spec_description(&self) -> Seq<char> {
        "Fetches the content of a URL as plaintext."@
    }

    open spec fn spec_parameters(&self) -> Seq<(Seq<char>, Seq<char>)> {
        seq![("url"@, "string"@)]
    }

    open spec fn spec_run(&self, args: Seq<(Seq<char>, Seq<char>)>, is_headless: bool) -> StepView {
        match lookup(args, "url"@) {
            Some(url) => StepView::Perform(EffectView::Fetch { url }, PendingView::GetUrl),
            None => StepView::Reply("[Error] URL parameter is missing."@),
        }
    }

    fn name(&self) -> (out: &'static str) {
        "get_url"
    }

    fn description(&self) -> (out: &'static str) {
        "Fetches the content of a URL as plaintext."
    }

    fn parameters(&self) -> (out: Vec<(&'static str, &'static str)>) {
        let mut params: Vec<(&'static str, &'static str)> = Vec::new();
        params.push(("url", "string"));
        params
    }

    fn run(&self, params: &ToolParams, settings: ExecuteCommandSettings) -> (out: Step) {
        match params.get("url") {
            Some(url) => Step::Perform(Effect::Fetch { url: url.clone() }, Pending::GetUrl),
            None => Step::Reply("[Error] URL parameter is missing.".to_owned()),
        }
    }
}

} // verus!
