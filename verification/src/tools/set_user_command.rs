use crate::text::{concat2, concat3};
use crate::tools::params::{lookup, ToolParams};
use crate::tools::step::{
    failure_of, unexpected, unexpected_outcome, Effect, EffectView, Outcome, OutcomeView, Pending,
    PendingView, Step, StepView,
};
use crate::tools::{ExecuteCommandSettings, Tool};
use vstd::prelude::*;

verus! {

/// The permission bits of a user command: everybody may read and run it,
/// its owner may change it.
pub const SCRIPT_MODE: u32 = 0o755;

/// Stores a script under a name, as a command of the user's own.
#[derive(Debug, Clone, Copy)]
pub struct SetUserCommand;

impl SetUserCommand {
    /// The directory that holds the user's commands.
    pub open spec fn commands_dir() -> Seq<char> {
        ".minerve/commands"@
    }

    /// The file name of the command `name`.
    pub open spec fn script_file(name: Seq<char>) -> Seq<char> {
        name + ".sh"@
    }

    /// The step after the directory was seen to: the write of the script, or
    /// the failure.
    pub open spec fn directory_ready(
        name: Seq<char>,
        content: Seq<char>,
        outcome: OutcomeView,
    ) -> StepView {
        match outcome {
            OutcomeView::Done => StepView::Perform(
                EffectView::WriteScript {
                    dir: Self::commands_dir(),
                    file: Self::script_file(name),
                    content,
                },
                PendingView::CommandFile { name },
            ),
            _ => match failure_of(outcome) {
                Some(message) => StepView::Reply("[Error] Failed to create directory: "@ + message),
                None => StepView::Reply(unexpected_outcome()),
            },
        }
    }

    /// The step after the write of the script: making it executable, or
    /// which half of the write failed.
    pub open spec fn script_written(name: Seq<char>, outcome: OutcomeView) -> StepView {
        match outcome {
            OutcomeView::Done => StepView::Perform(
                EffectView::SetMode {
                    dir: Self::commands_dir(),
                    file: Self::script_file(name),
                    mode: SCRIPT_MODE,
                },
                PendingView::CommandMode { name },
            ),
            OutcomeView::Broken(message) => StepView::Reply(
                "[Error] Failed to write content: "@ + message,
            ),
            OutcomeView::Failed(message) => StepView::Reply(
                "[Error] Failed to create script file: "@ + message,
            ),
            OutcomeView::Missing(message) => StepView::Reply(
                "[Error] Failed to create script file: "@ + message,
            ),
            _ => StepView::Reply(unexpected_outcome()),
        }
    }

    /// The answer once the script is executable, or the failure.
    pub open spec fn mode_set(name: Seq<char>, outcome: OutcomeView) -> Seq<char> {
        match outcome {
            OutcomeView::Done => "\u{2705} User command '"@ + name + "' created successfully."@,
            _ => match failure_of(outcome) {
                Some(message) => "[Error] Failed to set permissions: "@ + message,
                None => unexpected_outcome(),
            },
        }
    }

    /// The step after the directory was seen to.
    pub fn after_directory(name: String, content: String, outcome: Outcome) -> (out: Step)
        ensures
            out@ == Self::directory_ready(name@, content@, outcome@),
    {
        match outcome {
            Outcome::Done => Step::Perform(
                Effect::WriteScript {
                    dir: ".minerve/commands".to_owned(),
                    file: concat2(name.as_str(), ".sh"),
                    content,
                },
                Pending::CommandFile { name },
            ),
            other => match other.failure() {
                Some(message) => Step::Reply(
                    concat2("[Error] Failed to create directory: ", message.as_str()),
                ),
                None => Step::Reply(unexpected()),
            },
        }
    }

    /// The step after the write of the script.
    pub fn after_script(name: String, outcome: Outcome) -> (out: Step)
        ensures
            out@ == Self::script_written(name@, outcome@),
    {
        match outcome {
            Outcome::Done => Step::Perform(
                Effect::SetMode {
                    dir: ".minerve/commands".to_owned(),
                    file: concat2(name.as_str(), ".sh"),
                    mode: SCRIPT_MODE,
                },
                Pending::CommandMode { name },
            ),
            Outcome::Broken(message) => Step::Reply(
                concat2("[Error] Failed to write content: ", message.as_str()),
            ),
            Outcome::Failed(message) => Step::Reply(
                concat2("[Error] Failed to create script file: ", message.as_str()),
            ),
            Outcome::Missing(message) => Step::Reply(
                concat2("[Error] Failed to create script file: ", message.as_str()),
            ),
            _ => Step::Reply(unexpected()),
        }
    }

    /// Answers once the script is executable.
    pub fn after_mode(name: String, outcome: Outcome) -> (out: String)
        ensures
            out@ == Self::mode_set(name@, outcome@),
    {
        match outcome {
            Outcome::Done => concat3(
                "\u{2705} User command '",
                name.as_str(),
                "' created successfully.",
            ),
            other => match other.failure() {
                Some(message) => concat2("[Error] Failed to set permissions: ", message.as_str()),
                None => unexpected(),
            },
        }
    }
}

impl Tool for SetUserCommand {
    open spec fn spec_name(&self) -> Seq<char> {
        "set_user_command"@
    }

    open spec fn spec_description(&self) -> Seq<char> {
        "Manage user script commands."@
    }

    open spec fn spec_parameters(&self) -> Seq<(Seq<char>, Seq<char>)> {
        seq![("script_name"@, "string"@), ("content"@, "string"@)]
    }

    open spec fn spec_run(&self, args: Seq<(Seq<char>, Seq<char>)>, is_headless: bool) -> StepView {
        match lookup(args, "script_name"@) {
            Some(name) => match lookup(args, "content"@) {
                Some(content) => StepView::Perform(
                    EffectView::CreateDir { path: Self::commands_dir() },
                    PendingView::CommandDir { name, content },
                ),
                None => StepView::Reply("[Error] Missing 'content' parameter."@),
            },
            None => StepView::Reply("[Error] Missing 'script_name' parameter."@),
        }
    }

    fn name(&self) -> (out: &'static str) {
        "set_user_command"
    }

    fn description(&self) -> (out: &'static str) {
        "Manage user script commands."
    }

    fn parameters(&self) -> (out: Vec<(&'static str, &'static str)>) {
        let mut params: Vec<(&'static str, &'static str)> = Vec::new();
        params.push(("script_name", "string"));
        params.push(("content", "string"));
        params
    }

    fn run(&self, params: &ToolParams, settings: ExecuteCommandSettings) -> (out: Step) {
        let name = match params.get("script_name") {
            Some(name) => name.clone(),
            None => {
                return Step::Reply("[Error] Missing 'script_name' parameter.".to_owned());
            },
        };
        let content = match params.get("content") {
            Some(content) => content.clone(),
            None => {
                return Step::Reply("[Error] Missing 'content' parameter.".to_owned());
            },
        };
        Step::Perform(
            Effect::CreateDir { path: ".minerve/commands".to_owned() },
            Pending::CommandDir { name, content },
        )
    }
}

} // verus!
