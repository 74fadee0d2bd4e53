//! How a tool runs: step by step. A tool never touches the world itself. It
//! either answers, or names one effect for its surroundings to perform and
//! says what it waits for; the outcome of the effect then leads to the next
//! step.

use vstd::prelude::*;

verus! {

/// One thing to be done in the world on behalf of a tool.
#[derive(Debug, PartialEq, Eq)]
pub enum Effect {
    /// List the names of the entries of a directory.
    ListDir { path: String },
    /// Run a program with arguments and collect what it prints.
    Run { program: String, args: Vec<String> },
    /// Read a file as one text.
    ReadFile { path: String },
    /// Read a file line by line.
    ReadLines { path: String },
    /// Replace the content of a file, creating it where it is missing.
    WriteFile { path: String, content: String },
    /// Create a directory and its parents unless it exists.
    CreateDir { path: String },
    /// Open the file `file` of the directory `dir` for writing, creating it
    /// where it is missing, and write the content at its start.
    WriteScript { dir: String, file: String, content: String },
    /// Set the permission bits of the file `file` of the directory `dir`.
    SetMode { dir: String, file: String, mode: u32 },
    /// Fetch a URL and read the body as text.
    Fetch { url: String },
    /// Show a question on the terminal and read one line of input.
    Prompt { text: String },
    /// Ask the person at the screen for a yes or a no, and wait for it.
    Confirm { question: String },
    /// Run a nested session on a prompt and collect what it says.
    SubAgent { prompt: String },
}

/// The mathematical value of an [`Effect`].
pub enum EffectView {
    ListDir { path: Seq<char> },
    Run { program: Seq<char>, args: Seq<Seq<char>> },
    ReadFile { path: Seq<char> },
    ReadLines { path: Seq<char> },
    WriteFile { path: Seq<char>, content: Seq<char> },
    CreateDir { path: Seq<char> },
    WriteScript { dir: Seq<char>, file: Seq<char>, content: Seq<char> },
    SetMode { dir: Seq<char>, file: Seq<char>, mode: u32 },
    Fetch { url: Seq<char> },
    Prompt { text: Seq<char> },
    Confirm { question: Seq<char> },
    SubAgent { prompt: Seq<char> },
}

impl View for Effect {
    type V = EffectView;

    open spec fn view(&self) -> EffectView {
        match self {
            Effect::ListDir { path } => EffectView::ListDir { path: path@ },
            Effect::Run { program, args } => EffectView::Run {
                program: program@,
                args: args.deep_view(),
            },
            Effect::ReadFile { path } => EffectView::ReadFile { path: path@ },
            Effect::ReadLines { path } => EffectView::ReadLines { path: path@ },
            Effect::WriteFile { path, content } => EffectView::WriteFile {
                path: path@,
                content: content@,
            },
            Effect::CreateDir { path } => EffectView::CreateDir { path: path@ },
            Effect::WriteScript { dir, file, content } => EffectView::WriteScript {
                dir: dir@,
                file: file@,
                content: content@,
            },
            Effect::SetMode { dir, file, mode } => EffectView::SetMode {
                dir: dir@,
                file: file@,
                mode: *mode,
            },
            Effect::Fetch { url } => EffectView::Fetch { url: url@ },
            Effect::Prompt { text } => EffectView::Prompt { text: text@ },
            Effect::Confirm { question } => EffectView::Confirm { question: question@ },
            Effect::SubAgent { prompt } => EffectView::SubAgent { prompt: prompt@ },
        }
    }
}

/// What performing an effect gave.
#[derive(Debug, PartialEq, Eq)]
pub enum Outcome {
    /// It was done and there is nothing to hand back.
    Done,
    /// It gave a text: a file's content, a body, a line of input, what a
    /// nested session said.
    Text(String),
    /// It gave a list of texts: the entries of a directory, the lines of a
    /// file.
    Lines(Vec<String>),
    /// The program ran to its end.
    Exited { success: bool, stdout: String, stderr: String },
    /// The person answered.
    Answer(bool),
    /// Nobody is left to answer.
    Closed,
    /// What was to be read does not exist; the text is the system's message.
    Missing(String),
    /// It could not be begun; the text is the system's message.
    Failed(String),
    /// It began and then failed; the text is the system's message.
    Broken(String),
}

/// The mathematical value of an [`Outcome`].
pub enum OutcomeView {
    Done,
    Text(Seq<char>),
    Lines(Seq<Seq<char>>),
    Exited { success: bool, stdout: Seq<char>, stderr: Seq<char> },
    Answer(bool),
    Closed,
    Missing(Seq<char>),
    Failed(Seq<char>),
    Broken(Seq<char>),
}

impl View for Outcome {
    type V = OutcomeView;

    open spec fn view(&self) -> OutcomeView {
        match self {
            Outcome::Done => OutcomeView::Done,
            Outcome::Text(text) => OutcomeView::Text(text@),
            Outcome::Lines(lines) => OutcomeView::Lines(lines.deep_view()),
            Outcome::Exited { success, stdout, stderr } => OutcomeView::Exited {
                success: *success,
                stdout: stdout@,
                stderr: stderr@,
            },
            Outcome::Answer(yes) => OutcomeView::Answer(*yes),
            Outcome::Closed => OutcomeView::Closed,
            Outcome::Missing(message) => OutcomeView::Missing(message@),
            Outcome::Failed(message) => OutcomeView::Failed(message@),
            Outcome::Broken(message) => OutcomeView::Broken(message@),
        }
    }
}

/// What a tool that has asked for an effect waits for, with what it has to
/// remember meanwhile.
#[derive(Debug, PartialEq, Eq)]
pub enum Pending {
    /// The entries of the directory to list.
    ListFiles,
    /// The output of a command that is handed on as it is.
    CommandOutput,
    /// The output of the TypeScript compiler of the Node project.
    NodeYarn,
    /// The content of the file to show.
    ShowFile,
    /// The output of `cargo check`.
    CargoCheck,
    /// The typed answer to whether `command` may run.
    ShellAnswer { command: String },
    /// The output of the shell command.
    ShellRun,
    /// The result of creating the file at `path`.
    CreateFile { path: String },
    /// The content of the file at `path`, in which `old_content` is to be
    /// replaced by `new_content`.
    ReplaceRead { path: String, old_content: String, new_content: String },
    /// The result of writing the file at `path` after a replacement.
    ReplaceWrite { path: String },
    /// The result of creating the file at `path`, which was missing when
    /// nothing was to be replaced.
    ReplaceCreate { path: String },
    /// Whether the faster search program is installed; `needle` is what to
    /// search for.
    SearchProbe { needle: String },
    /// The output of the search.
    SearchRun,
    /// The result of writing the whole file at `path`.
    SetContents { path: String },
    /// The lines of the file whose structure is wanted.
    ExtractStructure,
    /// The body behind the URL.
    GetUrl,
    /// The result of creating the directory of user commands; the command
    /// `name` with `content` is still to be written.
    CommandDir { name: String, content: String },
    /// The result of writing the script of the user command `name`.
    CommandFile { name: String },
    /// The result of making the script of the user command `name`
    /// executable.
    CommandMode { name: String },
    /// What the nested session said.
    SubAgent,
}

/// The mathematical value of a [`Pending`].
pub enum PendingView {
    ListFiles,
    CommandOutput,
    NodeYarn,
    ShowFile,
    CargoCheck,
    ShellAnswer { command: Seq<char> },
    ShellRun,
    CreateFile { path: Seq<char> },
    ReplaceRead { path: Seq<char>, old_content: Seq<char>, new_content: Seq<char> },
    ReplaceWrite { path: Seq<char> },
    ReplaceCreate { path: Seq<char> },
    SearchProbe { needle: Seq<char> },
    SearchRun,
    SetContents { path: Seq<char> },
    ExtractStructure,
    GetUrl,
    CommandDir { name: Seq<char>, content: Seq<char> },
    CommandFile { name: Seq<char> },
    CommandMode { name: Seq<char> },
    SubAgent,
}

impl View for Pending {
    type V = PendingView;

    open spec fn view(&self) -> PendingView {
        match self {
            Pending::ListFiles => PendingView::ListFiles,
            Pending::CommandOutput => PendingView::CommandOutput,
            Pending::NodeYarn => PendingView::NodeYarn,
            Pending::ShowFile => PendingView::ShowFile,
            Pending::CargoCheck => PendingView::CargoCheck,
            Pending::ShellAnswer { command } => PendingView::ShellAnswer { command: command@ },
            Pending::ShellRun => PendingView::ShellRun,
            Pending::CreateFile { path } => PendingView::CreateFile { path: path@ },
            Pending::ReplaceRead { path, old_content, new_content } => PendingView::ReplaceRead {
                path: path@,
                old_content: old_content@,
                new_content: new_content@,
            },
            Pending::ReplaceWrite { path } => PendingView::ReplaceWrite { path: path@ },
            Pending::ReplaceCreate { path } => PendingView::ReplaceCreate { path: path@ },
            Pending::SearchProbe { needle } => PendingView::SearchProbe { needle: needle@ },
            Pending::SearchRun => PendingView::SearchRun,
            Pending::SetContents { path } => PendingView::SetContents { path: path@ },
            Pending::ExtractStructure => PendingView::ExtractStructure,
            Pending::GetUrl => PendingView::GetUrl,
            Pending::CommandDir { name, content } => PendingView::CommandDir {
                name: name@,
                content: content@,
            },
            Pending::CommandFile { name } => PendingView::CommandFile { name: name@ },
            Pending::CommandMode { name } => PendingView::CommandMode { name: name@ },
            Pending::SubAgent => PendingView::SubAgent,
        }
    }
}

/// One step of a tool: its answer, or an effect to perform and what the
/// tool then waits for.
#[derive(Debug, PartialEq, Eq)]
pub enum Step {
    Reply(String),
    Perform(Effect, Pending),
}

/// The mathematical value of a [`Step`].
pub enum StepView {
    Reply(Seq<char>),
    Perform(EffectView, PendingView),
}

impl View for Step {
    type V = StepView;

    open spec fn view(&self) -> StepView {
        match self {
            Step::Reply(text) => StepView::Reply(text@),
            Step::Perform(effect, pending) => StepView::Perform(effect@, pending@),
        }
    }
}

/// The answer of a tool to an outcome that the effect it asked for cannot
/// have.
pub open spec fn unexpected_outcome() -> Seq<char> {
    "[Error] Unexpected outcome"@
}

/// The answer of a tool to an outcome that the effect it asked for cannot
/// have.
pub fn unexpected() -> (out: String)
    ensures
        out@ == unexpected_outcome(),
{
    "[Error] Unexpected outcome".to_owned()
}

/// The answer that reports a failure by the system's message.
pub open spec fn error_reply(message: Seq<char>) -> Seq<char> {
    "[Error] "@ + message
}

/// The answer that reports a failure by the system's message.
pub fn error(message: &str) -> (out: String)
    ensures
        out@ == error_reply(message@),
{
    crate::text::concat2("[Error] ", message)
}

/// The system's message of an outcome that reports a failure.
pub open spec fn failure_of(outcome: OutcomeView) -> Option<Seq<char>> {
    match outcome {
        OutcomeView::Missing(message) => Some(message),
        OutcomeView::Failed(message) => Some(message),
        OutcomeView::Broken(message) => Some(message),
        _ => None,
    }
}

impl Outcome {
    /// The system's message, where the outcome reports a failure.
    pub fn failure(&self) -> (out: Option<&String>)
        ensures
            out.deep_view() == failure_of(self@),
    {
        match self {
            Outcome::Missing(message) => Some(message),
            Outcome::Failed(message) => Some(message),
            Outcome::Broken(message) => Some(message),
            _ => None,
        }
    }
}

/// The answer of a tool that hands on what a command printed: its standard
/// output, whether the command succeeded or not, or the failure to run it.
pub open spec fn command_output(outcome: OutcomeView) -> Seq<char> {
    match outcome {
        OutcomeView::Exited { success, stdout, stderr } => stdout,
        _ => match failure_of(outcome) {
            Some(message) => error_reply(message),
            None => unexpected_outcome(),
        },
    }
}

/// The answer of a tool that hands on what a command printed.
pub fn after_command(outcome: Outcome) -> (out: String)
    ensures
        out@ == command_output(outcome@),
{
    match outcome {
        Outcome::Exited { success, stdout, stderr } => stdout,
        other => match other.failure() {
            Some(message) => error(message.as_str()),
            None => unexpected(),
        },
    }
}

/// The effect that runs `program` with one argument.
pub fn run1(program: &str, a: &str) -> (out: Effect)
    ensures
        out@ == (EffectView::Run { program: program@, args: seq![a@] }),
{
    let mut args: Vec<String> = Vec::new();
    args.push(a.to_owned());
    proof {
        assert(args.deep_view() =~= seq![a@]);
    }
    Effect::Run { program: program.to_owned(), args }
}

/// The effect that runs `program` with two arguments.
pub fn run2(program: &str, a: &str, b: &str) -> (out: Effect)
    ensures
        out@ == (EffectView::Run { program: program@, args: seq![a@, b@] }),
{
    let mut args: Vec<String> = Vec::new();
    args.push(a.to_owned());
    args.push(b.to_owned());
    proof {
        assert(args.deep_view() =~= seq![a@, b@]);
    }
    Effect::Run { program: program.to_owned(), args }
}

} // verus!
