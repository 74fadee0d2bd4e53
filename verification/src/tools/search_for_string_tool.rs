use crate::text::{concat3, prefix_of, truncate};
use crate::tools::params::{required_text, ParamName, ToolParams};
use crate::tools::step::{
    after_command, command_output, run2, EffectView, Outcome, OutcomeView, Pending, PendingView,
    Step, StepView,
};
use crate::tools::{ExecuteCommandSettings, Tool};
use vstd::prelude::*;

verus! {

/// The most characters of search output that are handed to the model.
pub const SEARCH_OUTPUT_LIMIT: usize = 2000;

/// Searches the files below the current directory for a string, with `ag`
/// where it is installed and with `grep` where it is not.
#[derive(Debug, Clone, Copy)]
pub struct SearchForStringTool;

impl SearchForStringTool {
    /// The shell line that finds out whether `ag` is installed.
    pub open spec fn probe_line() -> Seq<char> {
        "command -v ag"@
    }

    /// Whether the probe found `ag`: it ran and succeeded.
    pub open spec fn found_ag(outcome: OutcomeView) -> bool {
        outcome matches OutcomeView::Exited { success, stdout, stderr } && success
    }

    /// The shell line that searches for `needle`.
    pub open spec fn search_line(needle: Seq<char>, with_ag: bool) -> Seq<char> {
        if with_ag {
            "ag --ignore .git --ignore node_modules \""@ + needle + "\""@
        } else {
            "grep -r --exclude-dir={.git,node_modules} \""@ + needle + "\" ."@
        }
    }

    /// The step after the probe: the search, with the program that the
    /// probe allows.
    pub open spec fn probed(needle: Seq<char>, outcome: OutcomeView) -> StepView {
        StepView::Perform(
            EffectView::Run {
                program: "sh"@,
                args: seq!["-c"@, Self::search_line(needle, Self::found_ag(outcome))],
            },
            PendingView::SearchRun,
        )
    }

    /// The answer to the search: what was printed, or the failure, cut down
    /// to the limit.
    pub open spec fn searched(outcome: OutcomeView) -> Seq<char> {
        prefix_of(command_output(outcome), SEARCH_OUTPUT_LIMIT as nat)
    }

    /// The step after the probe.
    pub fn after_probe(needle: String, outcome: Outcome) -> (out: Step)
        ensures
            out@ == Self::probed(needle@, outcome@),
    {
        let with_ag = match outcome {
            Outcome::Exited { success, stdout, stderr } => success,
            _ => false,
        };
        let line = if with_ag {
            concat3("ag --ignore .git --ignore node_modules \"", needle.as_str(), "\"")
        } else {
            concat3("grep -r --exclude-dir={.git,node_modules} \"", needle.as_str(), "\" .")
        };
        Step::Perform(run2("sh", "-c", line.as_str()), Pending::SearchRun)
    }

    /// Answers to the search.
    pub fn after_search(outcome: Outcome) -> (out: String)
        ensures
            out@ == Self::searched(outcome@),
    {
        truncate(after_command(outcome), SEARCH_OUTPUT_LIMIT)
    }
}

impl Tool for SearchForStringTool {
    open spec fn spec_name(&self) -> Seq<char> {
        "search_for_string"@
    }

    open spec fn spec_description(&self) -> Seq<char> {
        "Searches for a string in the current directory using ag or grep, excluding gitignored files."@
    }

    open spec fn spec_parameters(&self) -> Seq<(Seq<char>, Seq<char>)> {
        seq![("search_string"@, "string"@)]
    }

    open spec fn spec_run(&self, args: Seq<(Seq<char>, Seq<char>)>, is_headless: bool) -> StepView {
        match required_text(args, "search_string"@) {
            Ok(needle) => StepView::Perform(
                EffectView::Run { program: "sh"@, args: seq!["-c"@, Self::probe_line()] },
                PendingView::SearchProbe { needle },
            ),
            Err(answer) => StepView::Reply(answer),
        }
    }

    fn name(&self) -> (out: &'static str) {
        "search_for_string"
    }

    fn description(&self) -> (out: &'static str) {
        "Searches for a string in the current directory using ag or grep, excluding gitignored files."
    }

    fn parameters(&self) -> (out: Vec<(&'static str, &'static str)>) {
        let mut params: Vec<(&'static str, &'static str)> = Vec::new();
        params.push((ParamName::SearchString.as_str(), "string"));
        params
    }

    fn run(&self, params: &ToolParams, settings: ExecuteCommandSettings) -> (out: Step) {
        match params.get_string(ParamName::SearchString.as_str()) {
            Ok(needle) => Step::Perform(
                run2("sh", "-c", "command -v ag"),
                Pending::SearchProbe { needle },
            ),
            Err(answer) => Step::Reply(answer),
        }
    }
}

} // verus!
