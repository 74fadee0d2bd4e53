use crate::text::{concat3, equal, lowercase, lowercase_of, trim, trimmed};
use crate::tools::params::{required_text, ToolParams};
use crate::tools::step::{
    error, error_reply, failure_of, run2, unexpected, unexpected_outcome, Effect, EffectView,
    Outcome, OutcomeView, Pending, PendingView, Step, StepView,
};
use crate::tools::{ExecuteCommandSettings, Tool};
use vstd::prelude::*;

verus! {

/// Runs a shell command. It is the one tool that can destroy something, so
/// nothing runs before somebody has agreed: on the terminal the tool asks
/// itself, at the screen the dispatcher asks before it begins the tool.
#[derive(Debug, Clone, Copy)]
pub struct RunShellCommandTool;

impl RunShellCommandTool {
    /// The effect that runs `command` in a shell.
    pub open spec fn shell(command: Seq<char>) -> EffectView {
        EffectView::Run { program: "sh"@, args: seq!["-c"@, command] }
    }

    /// The question put on the terminal before `command` runs.
    pub open spec fn question(command: Seq<char>) -> Seq<char> {
        "Do you want to run the command '"@ + command + "'? (y/n): "@
    }

    /// Whether a word says yes: it reads `y` or `yes`.
    pub open spec fn says_yes(word: Seq<char>) -> bool {
        word == "y"@ || word == "yes"@
    }

    /// Whether a typed answer agrees: without the white space around it and
    /// in lower case it says yes.
    pub open spec fn agrees(answer: Seq<char>) -> bool {
        Self::says_yes(lowercase_of(trimmed(answer)))
    }

    /// The first step for `command`: on the terminal the question, else the
    /// run.
    pub open spec fn executed(command: Seq<char>, is_headless: bool) -> StepView {
        if is_headless {
            StepView::Perform(
                EffectView::Prompt { text: Self::question(command) },
                PendingView::ShellAnswer { command },
            )
        } else {
            StepView::Perform(Self::shell(command), PendingView::ShellRun)
        }
    }

    /// The step after the answer typed on the terminal: the run where the
    /// answer agrees, else the note that the command was cancelled; where no
    /// line could be read, the report of that.
    pub open spec fn answered(command: Seq<char>, outcome: OutcomeView) -> StepView {
        match outcome {
            OutcomeView::Text(line) => if Self::agrees(line) {
                StepView::Perform(Self::shell(command), PendingView::ShellRun)
            } else {
                StepView::Reply("Command execution cancelled by user."@)
            },
            _ => match failure_of(outcome) {
                Some(message) => StepView::Reply("[Error] Failed to read user input"@),
                None => StepView::Reply(unexpected_outcome()),
            },
        }
    }

    /// The answer to the run: what the command printed where it succeeded,
    /// else its diagnostics as an error.
    pub open spec fn finished(outcome: OutcomeView) -> Seq<char> {
        match outcome {
            OutcomeView::Exited { success, stdout, stderr } => if success {
                stdout
            } else {
                error_reply(stderr)
            },
            _ => match failure_of(outcome) {
                Some(message) => error_reply(message),
                None => unexpected_outcome(),
            },
        }
    }

    /// Begins the tool; the same as [`Tool::run`].
    pub fn run_with_settings(&self, params: &ToolParams, settings: ExecuteCommandSettings) -> (out:
        Step)
        ensures
            out@ == self.spec_run(params@, settings.is_headless),
    {
        match params.get_string("command") {
            Ok(command) => Self::execute_command(command.as_str(), Some(settings)),
            Err(answer) => Step::Reply(answer),
        }
    }

    /// The first step for `command`. Without settings the command is run as
    /// at the screen, where the question has been put before.
    pub fn execute_command(command: &str, settings: Option<ExecuteCommandSettings>) -> (out: Step)
        ensures
            out@ == Self::executed(
                command@,
                match settings {
                    Some(s) => s.is_headless,
                    None => false,
                },
            ),
    {
        let is_headless = match settings {
            Some(s) => s.is_headless,
            None => false,
        };
        if is_headless {
            Step::Perform(
                Effect::Prompt {
                    text: concat3("Do you want to run the command '", command, "'? (y/n): "),
                },
                Pending::ShellAnswer { command: command.to_owned() },
            )
        } else {
            Step::Perform(run2("sh", "-c", command), Pending::ShellRun)
        }
    }

    /// Whether a word says yes.
    pub fn is_yes(word: &str) -> (out: bool)
        ensures
            out == Self::says_yes(word@),
    {
        equal(word, "y") || equal(word, "yes")
    }

    /// Whether a typed answer agrees.
    pub fn is_agreement(answer: &str) -> (out: bool)
        ensures
            out == Self::agrees(answer@),
    {
        Self::is_yes(lowercase(trim(answer).as_str()).as_str())
    }

    /// The step after the answer typed on the terminal.
    pub fn after_answer(command: String, outcome: Outcome) -> (out: Step)
        ensures
            out@ == Self::answered(command@, outcome@),
    {
        match outcome {
            Outcome::Text(line) => {
                if Self::is_agreement(line.as_str()) {
                    Step::Perform(run2("sh", "-c", command.as_str()), Pending::ShellRun)
                } else {
                    Step::Reply("Command execution cancelled by user.".to_owned())
                }
            },
            other => match other.failure() {
                Some(message) => Step::Reply("[Error] Failed to read user input".to_owned()),
                None => Step::Reply(unexpected()),
            },
        }
    }

    /// Answers to the run.
    pub fn after_run(outcome: Outcome) -> (out: String)
        ensures
            out@ == Self::finished(outcome@),
    {
        match outcome {
            Outcome::Exited { success, stdout, stderr } => {
                if success {
                    stdout
                } else {
                    error(stderr.as_str())
                }
            },
            other => match other.failure() {
                Some(message) => error(message.as_str()),
                None => unexpected(),
            },
        }
    }
}

impl Tool for RunShellCommandTool {
    open spec fn spec_name(&self) -> Seq<char> {
        "run_shell_command"@
    }

    open spec fn spec_description(&self) -> Seq<char> {
        "Runs a shell command. Use external UI for confirmation."@
    }

    open spec fn spec_parameters(&self) -> Seq<(Seq<char>, Seq<char>)> {
        seq![("command"@, "string"@), ("is_headless"@, "string"@)]
    }

    open spec fn spec_run(&self, args: Seq<(Seq<char>, Seq<char>)>, is_headless: bool) -> StepView {
        match required_text(args, "command"@) {
            Ok(command) => Self::executed(command, is_headless),
            Err(answer) => StepView::Reply(answer),
        }
    }

    fn name(&self) -> (out: &'static str) {
        "run_shell_command"
    }

    fn description(&self) -> (out: &'static str) {
        "Runs a shell command. Use external UI for confirmation."
    }

    fn parameters(&self) -> (out: Vec<(&'static str, &'static str)>) {
        let mut params: Vec<(&'static str, &'static str)> = Vec::new();
        params.push(("command", "string"));
        params.push(("is_headless", "string"));
        params
    }

    fn run(&self, params: &ToolParams, settings: ExecuteCommandSettings) -> (out: Step) {
        self.run_with_settings(params, settings)
    }
}

} // verus!
