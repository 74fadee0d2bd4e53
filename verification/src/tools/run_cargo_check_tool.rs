use crate::text::concat3;
use crate::tools::params::ToolParams;
use crate::tools::step::{
    error, error_reply, failure_of, run1, unexpected, unexpected_outcome, EffectView, Outcome,
    OutcomeView, Pending, PendingView, Step, StepView,
};
use crate::tools::{ExecuteCommandSettings, Tool};
use vstd::prelude::*;

verus! {

/// Type-checks the Rust project in the current directory.
#[derive(Debug, Clone, Copy)]
pub struct RunCargoCheckTool;

impl Tool for RunCargoCheckTool {
    open spec fn spec_name(&self) -> Seq<char> {
        "run_cargo_check"@
    }

    open spec fn spec_description(&self) -> Seq<char> {
        "Runs `cargo check` in the current directory."@
    }

    open spec fn spec_parameters(&self) -> Seq<(Seq<char>, Seq<char>)> {
        Seq::empty()
    }

    open spec fn spec_run(&self, args: Seq<(Seq<char>, Seq<char>)>, is_headless: bool) -> StepView {
        StepView::Perform(
            EffectView::Run { program: "cargo"@, args: seq!["check"@] },
            PendingView::CargoCheck,
        )
    }

    fn name(&self) -> (out: &'static str) {
        "run_cargo_check"
    }

    fn description(&self) -> (out: &'static str) {
        "Runs `cargo check` in the current directory."
    }

    fn parameters(&self) -> (out: Vec<(&'static str, &'static str)>) {
        let params: Vec<(&'static str, &'static str)> = Vec::new();
        params
    }

    fn run(&self, params: &ToolParams, settings: ExecuteCommandSettings) -> (out: Step) {
        Step::Perform(run1("cargo", "check"), Pending::CargoCheck)
    }
}

impl RunCargoCheckTool {
    /// The answer to the check. After a success: what was printed, the
    /// diagnostics on a line of their own below the output where there are
    /// any. After a failure: the diagnostics as an error.
    pub open spec fn checked(outcome: OutcomeView) -> Seq<char> {
        match outcome {
            OutcomeView::Exited { success, stdout, stderr } => if success {
                if stderr.len() > 0 {
                    stdout + "\n"@ + stderr
                } else {
                    stdout
                }
            } else {
                error_reply(stderr)
            },
            _ => match failure_of(outcome) {
                Some(message) => error_reply(message),
                None => unexpected_outcome(),
            },
        }
    }

    /// Answers to the check.
    pub fn after_check(outcome: Outcome) -> (out: String)
        ensures
            out@ == Self::checked(outcome@),
    {
        match outcome {
            Outcome::Exited { success, stdout, stderr } => {
                if success {
                    if !stderr.as_str().is_empty() {
                        concat3(stdout.as_str(), "\n", stderr.as_str())
                    } else {
                        stdout
                    }
                } else {
                    error(stderr.as_str())
                }
            },
            other => match other.failure() {
                Some(message) => error(message.as_str()),
                None => unexpected(),
            },
        }
    }
}

} // verus!
