//! The closed set of tools, the registry built from it for a session, and
//! the step that follows an outcome.

use crate::text::equal;
use crate::tools::create_file_tool::CreateFileTool;
use crate::tools::extract_structure_tool::ExtractStructureTool;
use crate::tools::get_url_tool::GetUrlTool;
use crate::tools::git_diff_cached_tool::GitDiffCachedTool;
use crate::tools::git_diff_tool::GitDiffTool;
use crate::tools::git_status_tool::GitStatusTool;
use crate::tools::list_files_tool::ListFilesTool;
use crate::tools::node_yarn_tool::NodeYarnTool;
use crate::tools::params::ToolParams;
use crate::tools::replace_content_tool::ReplaceContentTool;
use crate::tools::run_cargo_check_tool::RunCargoCheckTool;
use crate::tools::run_shell_command_tool::RunShellCommandTool;
use crate::tools::schema::{schema_of, FunctionSchema};
use crate::tools::search_for_string_tool::SearchForStringTool;
use crate::tools::set_user_command::SetUserCommand;
use crate::tools::set_whole_file_contents_tool::SetWholeFileContentsTool;
use crate::tools::show_file_tool::ShowFileTool;
use crate::tools::step::{
    after_command, command_output, Outcome, OutcomeView, Pending, PendingView, Step, StepView,
};
use crate::tools::subminerve_tool::SubMinerveTool;
use crate::tools::{ExecuteCommandSettings, Tool};
use vstd::prelude::*;

verus! {

/// The tools, one variant each.
#[derive(Debug, Clone, Copy, PartialEq, Eq, Structural)]
pub enum ToolKind {
    SearchForString,
    ListFiles,
    GitStatus,
    GitDiff,
    GitDiffCached,
    ShowFile,
    ReplaceContent,
    RunCargoCheck,
    RunShellCommand,
    SetWholeFileContents,
    SubMinerve,
    CreateFile,
    ExtractStructure,
    GetUrl,
    NodeYarn,
    SetUserCommand,
}

impl ToolKind {
    /// The name under which the model invokes the tool.
    pub open spec fn spec_name(self) -> Seq<char> {
        match self {
            ToolKind::SearchForString => SearchForStringTool.spec_name(),
            ToolKind::ListFiles => ListFilesTool.spec_name(),
            ToolKind::GitStatus => GitStatusTool.spec_name(),
            ToolKind::GitDiff => GitDiffTool.spec_name(),
            ToolKind::GitDiffCached => GitDiffCachedTool.spec_name(),
            ToolKind::ShowFile => ShowFileTool.spec_name(),
            ToolKind::ReplaceContent => ReplaceContentTool.spec_name(),
            ToolKind::RunCargoCheck => RunCargoCheckTool.spec_name(),
            ToolKind::RunShellCommand => RunShellCommandTool.spec_name(),
            ToolKind::SetWholeFileContents => SetWholeFileContentsTool.spec_name(),
            ToolKind::SubMinerve => SubMinerveTool.spec_name(),
            ToolKind::CreateFile => CreateFileTool.spec_name(),
            ToolKind::ExtractStructure => ExtractStructureTool.spec_name(),
            ToolKind::GetUrl => GetUrlTool.spec_name(),
            ToolKind::NodeYarn => NodeYarnTool.spec_name(),
            ToolKind::SetUserCommand => SetUserCommand.spec_name(),
        }
    }

    /// The description shown to the model.
    pub open spec fn spec_description(self) -> Seq<char> {
        match self {
            ToolKind::SearchForString => SearchForStringTool.spec_description(),
            ToolKind::ListFiles => ListFilesTool.spec_description(),
            ToolKind::GitStatus => GitStatusTool.spec_description(),
            ToolKind::GitDiff => GitDiffTool.spec_description(),
            ToolKind::GitDiffCached => GitDiffCachedTool.spec_description(),
            ToolKind::ShowFile => ShowFileTool.spec_description(),
            ToolKind::ReplaceContent => ReplaceContentTool.spec_description(),
            ToolKind::RunCargoCheck => RunCargoCheckTool.spec_description(),
            ToolKind::RunShellCommand => RunShellCommandTool.spec_description(),
            ToolKind::SetWholeFileContents => SetWholeFileContentsTool.spec_description(),
            ToolKind::SubMinerve => SubMinerveTool.spec_description(),
            ToolKind::CreateFile => CreateFileTool.spec_description(),
            ToolKind::ExtractStructure => ExtractStructureTool.spec_description(),
            ToolKind::GetUrl => GetUrlTool.spec_description(),
            ToolKind::NodeYarn => NodeYarnTool.spec_description(),
            ToolKind::SetUserCommand => SetUserCommand.spec_description(),
        }
    }

    /// The declared parameters, each with its type.
    pub open spec fn spec_parameters(self) -> Seq<(Seq<char>, Seq<char>)> {
        match self {
            ToolKind::SearchForString => SearchForStringTool.spec_parameters(),
            ToolKind::ListFiles => ListFilesTool.spec_parameters(),
            ToolKind::GitStatus => GitStatusTool.spec_parameters(),
            ToolKind::GitDiff => GitDiffTool.spec_parameters(),
            ToolKind::GitDiffCached => GitDiffCachedTool.spec_parameters(),
            ToolKind::ShowFile => ShowFileTool.spec_parameters(),
            ToolKind::ReplaceContent => ReplaceContentTool.spec_parameters(),
            ToolKind::RunCargoCheck => RunCargoCheckTool.spec_parameters(),
            ToolKind::RunShellCommand => RunShellCommandTool.spec_parameters(),
            ToolKind::SetWholeFileContents => SetWholeFileContentsTool.spec_parameters(),
            ToolKind::SubMinerve => SubMinerveTool.spec_parameters(),
            ToolKind::CreateFile => CreateFileTool.spec_parameters(),
            ToolKind::ExtractStructure => ExtractStructureTool.spec_parameters(),
            ToolKind::GetUrl => GetUrlTool.spec_parameters(),
            ToolKind::NodeYarn => NodeYarnTool.spec_parameters(),
            ToolKind::SetUserCommand => SetUserCommand.spec_parameters(),
        }
    }

    /// The first step of the tool on the given arguments.
    pub open spec fn spec_run(self, args: Seq<(Seq<char>, Seq<char>)>, is_headless: bool) -> StepView {
        match self {
            ToolKind::SearchForString => SearchForStringTool.spec_run(args, is_headless),
            ToolKind::ListFiles => ListFilesTool.spec_run(args, is_headless),
            ToolKind::GitStatus => GitStatusTool.spec_run(args, is_headless),
            ToolKind::GitDiff => GitDiffTool.spec_run(args, is_headless),
            ToolKind::GitDiffCached => GitDiffCachedTool.spec_run(args, is_headless),
            ToolKind::ShowFile => ShowFileTool.spec_run(args, is_headless),
            ToolKind::ReplaceContent => ReplaceContentTool.spec_run(args, is_headless),
            ToolKind::RunCargoCheck => RunCargoCheckTool.spec_run(args, is_headless),
            ToolKind::RunShellCommand => RunShellCommandTool.spec_run(args, is_headless),
            ToolKind::SetWholeFileContents => SetWholeFileContentsTool.spec_run(args, is_headless),
            ToolKind::SubMinerve => SubMinerveTool.spec_run(args, is_headless),
            ToolKind::CreateFile => CreateFileTool.spec_run(args, is_headless),
            ToolKind::ExtractStructure => ExtractStructureTool.spec_run(args, is_headless),
            ToolKind::GetUrl => GetUrlTool.spec_run(args, is_headless),
            ToolKind::NodeYarn => NodeYarnTool.spec_run(args, is_headless),
            ToolKind::SetUserCommand => SetUserCommand.spec_run(args, is_headless),
        }
    }

    /// Whether the tool can destroy something, so that it runs only after
    /// somebody has agreed.
    pub open spec fn destructive(self) -> bool {
        self == ToolKind::RunShellCommand
    }

    /// Whether the tool starts a nested session.
    pub open spec fn nests(self) -> bool {
        self == ToolKind::SubMinerve
    }

    /// The name under which the model invokes the tool.
    pub fn name(self) -> (out: &'static str)
        ensures
            out@ == self.spec_name(),
    {
        match self {
            ToolKind::SearchForString => SearchForStringTool.name(),
            ToolKind::ListFiles => ListFilesTool.name(),
            ToolKind::GitStatus => GitStatusTool.name(),
            ToolKind::GitDiff => GitDiffTool.name(),
            ToolKind::GitDiffCached => GitDiffCachedTool.name(),
            ToolKind::ShowFile => ShowFileTool.name(),
            ToolKind::ReplaceContent => ReplaceContentTool.name(),
            ToolKind::RunCargoCheck => RunCargoCheckTool.name(),
            ToolKind::RunShellCommand => RunShellCommandTool.name(),
            ToolKind::SetWholeFileContents => SetWholeFileContentsTool.name(),
            ToolKind::SubMinerve => SubMinerveTool.name(),
            ToolKind::CreateFile => CreateFileTool.name(),
            ToolKind::ExtractStructure => ExtractStructureTool.name(),
            ToolKind::GetUrl => GetUrlTool.name(),
            ToolKind::NodeYarn => NodeYarnTool.name(),
            ToolKind::SetUserCommand => SetUserCommand.name(),
        }
    }

    /// The description shown to the model.
    pub fn description(self) -> (out: &'static str)
        ensures
            out@ == self.spec_description(),
    {
        match self {
            ToolKind::SearchForString => SearchForStringTool.description(),
            ToolKind::ListFiles => ListFilesTool.description(),
            ToolKind::GitStatus => GitStatusTool.description(),
            ToolKind::GitDiff => GitDiffTool.description(),
            ToolKind::GitDiffCached => GitDiffCachedTool.description(),
            ToolKind::ShowFile => ShowFileTool.description(),
            ToolKind::ReplaceContent => ReplaceContentTool.description(),
            ToolKind::RunCargoCheck => RunCargoCheckTool.description(),
            ToolKind::RunShellCommand => RunShellCommandTool.description(),
            ToolKind::SetWholeFileContents => SetWholeFileContentsTool.description(),
            ToolKind::SubMinerve => SubMinerveTool.description(),
            ToolKind::CreateFile => CreateFileTool.description(),
            ToolKind::ExtractStructure => ExtractStructureTool.description(),
            ToolKind::GetUrl => GetUrlTool.description(),
            ToolKind::NodeYarn => NodeYarnTool.description(),
            ToolKind::SetUserCommand => SetUserCommand.description(),
        }
    }

    /// The declared parameters, each with its type.
    pub fn parameters(self) -> (out: Vec<(&'static str, &'static str)>)
        ensures
            out.deep_view() == self.spec_parameters(),
    {
        match self {
            ToolKind::SearchForString => SearchForStringTool.parameters(),
            ToolKind::ListFiles => ListFilesTool.parameters(),
            ToolKind::GitStatus => GitStatusTool.parameters(),
            ToolKind::GitDiff => GitDiffTool.parameters(),
            ToolKind::GitDiffCached => GitDiffCachedTool.parameters(),
            ToolKind::ShowFile => ShowFileTool.parameters(),
            ToolKind::ReplaceContent => ReplaceContentTool.parameters(),
            ToolKind::RunCargoCheck => RunCargoCheckTool.parameters(),
            ToolKind::RunShellCommand => RunShellCommandTool.parameters(),
            ToolKind::SetWholeFileContents => SetWholeFileContentsTool.parameters(),
            ToolKind::SubMinerve => SubMinerveTool.parameters(),
            ToolKind::CreateFile => CreateFileTool.parameters(),
            ToolKind::ExtractStructure => ExtractStructureTool.parameters(),
            ToolKind::GetUrl => GetUrlTool.parameters(),
            ToolKind::NodeYarn => NodeYarnTool.parameters(),
            ToolKind::SetUserCommand => SetUserCommand.parameters(),
        }
    }

    /// The definition of the tool's parameters that goes out to the model.
    pub fn function_definition(self) -> (out: FunctionSchema)
        ensures
            out@ == schema_of(self.spec_parameters()),
    {
        let parameters = self.parameters();
        crate::tools::schema::definition_of(&parameters)
    }

    /// Begins the tool on the given arguments.
    pub fn run(self, params: &ToolParams, settings: ExecuteCommandSettings) -> (out: Step)
        ensures
            out@ == self.spec_run(params@, settings.is_headless),
    {
        match self {
            ToolKind::SearchForString => SearchForStringTool.run(params, settings),
            ToolKind::ListFiles => ListFilesTool.run(params, settings),
            ToolKind::GitStatus => GitStatusTool.run(params, settings),
            ToolKind::GitDiff => GitDiffTool.run(params, settings),
            ToolKind::GitDiffCached => GitDiffCachedTool.run(params, settings),
            ToolKind::ShowFile => ShowFileTool.run(params, settings),
            ToolKind::ReplaceContent => ReplaceContentTool.run(params, settings),
            ToolKind::RunCargoCheck => RunCargoCheckTool.run(params, settings),
            ToolKind::RunShellCommand => RunShellCommandTool.run(params, settings),
            ToolKind::SetWholeFileContents => SetWholeFileContentsTool.run(params, settings),
            ToolKind::SubMinerve => SubMinerveTool.run(params, settings),
            ToolKind::CreateFile => CreateFileTool.run(params, settings),
            ToolKind::ExtractStructure => ExtractStructureTool.run(params, settings),
            ToolKind::GetUrl => GetUrlTool.run(params, settings),
            ToolKind::NodeYarn => NodeYarnTool.run(params, settings),
            ToolKind::SetUserCommand => SetUserCommand.run(params, settings),
        }
    }

    /// Whether the tool can destroy something.
    pub fn is_destructive(self) -> (out: bool)
        ensures
            out == self.destructive(),
    {
        self == ToolKind::RunShellCommand
    }

    /// Whether the tool starts a nested session.
    pub fn spawns_sub_agent(self) -> (out: bool)
        ensures
            out == self.nests(),
    {
        self == ToolKind::SubMinerve
    }
}

/// The tools that every session offers, in the order in which they are
/// announced.
pub open spec fn ordinary_tools() -> Seq<ToolKind> {
    seq![
        ToolKind::SearchForString,
        ToolKind::ListFiles,
        ToolKind::GitStatus,
        ToolKind::GitDiff,
        ToolKind::GitDiffCached,
        ToolKind::ShowFile,
        ToolKind::ReplaceContent,
        ToolKind::RunCargoCheck,
        ToolKind::RunShellCommand,
        ToolKind::SetWholeFileContents,
    ]
}

/// The tools that a session offers: the ordinary ones, and outside a nested
/// session the tool that starts one.
pub open spec fn registry_for(in_sub_agent: bool) -> Seq<ToolKind> {
    if in_sub_agent {
        ordinary_tools()
    } else {
        ordinary_tools().push(ToolKind::SubMinerve)
    }
}

/// The tool of `registry` that goes by `name`, if there is one.
pub open spec fn named(registry: Seq<ToolKind>, name: Seq<char>) -> Option<ToolKind>
    decreases registry.len(),
{
    if registry.len() == 0 {
        None
    } else if registry.first().spec_name() == name {
        Some(registry.first())
    } else {
        named(registry.drop_first(), name)
    }
}

/// Builds the registry of a session.
pub fn get_tool_registry(in_sub_agent: bool) -> (out: Vec<ToolKind>)
    ensures
        out@ == registry_for(in_sub_agent),
{
    let mut registry: Vec<ToolKind> = Vec::new();
    registry.push(ToolKind::SearchForString);
    registry.push(ToolKind::ListFiles);
    registry.push(ToolKind::GitStatus);
    registry.push(ToolKind::GitDiff);
    registry.push(ToolKind::GitDiffCached);
    registry.push(ToolKind::ShowFile);
    registry.push(ToolKind::ReplaceContent);
    registry.push(ToolKind::RunCargoCheck);
    registry.push(ToolKind::RunShellCommand);
    registry.push(ToolKind::SetWholeFileContents);
    if !in_sub_agent {
        registry.push(ToolKind::SubMinerve);
    }
    registry
}

/// Looks `name` up in `registry`.
pub fn find_tool(registry: &Vec<ToolKind>, name: &str) -> (out: Option<ToolKind>)
    ensures
        out == named(registry@, name@),
{
    let mut i: usize = 0;
    proof {
        assert(registry@.skip(0) =~= registry@);
    }
    while i < registry.len()
        invariant
            i <= registry.len(),
            named(registry@, name@) == named(registry@.skip(i as int), name@),
        decreases registry.len() - i,
    {
        proof {
            assert(registry@.skip(i as int).drop_first() =~= registry@.skip(i as int + 1));
        }
        if equal(registry[i].name(), name) {
            return Some(registry[i]);
        }
        i += 1;
    }
    None
}

/// A mark of a tool's name: its length and its first two characters.
pub open spec fn name_mark(kind: ToolKind) -> (nat, char, char) {
    (kind.spec_name().len(), kind.spec_name()[0], kind.spec_name()[1])
}

/// No two tools go by the same name.
pub proof fn lemma_names_are_unique(a: ToolKind, b: ToolKind)
    requires
        a != b,
    ensures
        a.spec_name() != b.spec_name(),
{
    reveal_strlit("search_for_string");
    reveal_strlit("list_files");
    reveal_strlit("git_status");
    reveal_strlit("git_diff");
    reveal_strlit("git_diff_cached");
    reveal_strlit("show_file");
    reveal_strlit("replace_content");
    reveal_strlit("run_cargo_check");
    reveal_strlit("run_shell_command");
    reveal_strlit("set_whole_file_contents");
    reveal_strlit("subminerve");
    reveal_strlit("create_file");
    reveal_strlit("extract_structure");
    reveal_strlit("get_url");
    reveal_strlit("NodeYarnTool");
    reveal_strlit("set_user_command");
    assert(name_mark(a) != name_mark(b));
}

/// In a registry, a name finds at most one tool, and every tool of the
/// registry is found by its name.
pub proof fn lemma_registry_lookup(in_sub_agent: bool, kind: ToolKind)
    requires
        registry_for(in_sub_agent).contains(kind),
    ensures
        named(registry_for(in_sub_agent), kind.spec_name()) == Some(kind),
{
    let registry = registry_for(in_sub_agent);
    lemma_named_finds(registry, kind);
}

/// A tool that stands in a list is what its name finds there.
pub proof fn lemma_named_finds(registry: Seq<ToolKind>, kind: ToolKind)
    requires
        registry.contains(kind),
    ensures
        named(registry, kind.spec_name()) == Some(kind),
    decreases registry.len(),
{
    if registry.first() == kind {
    } else {
        lemma_names_are_unique(registry.first(), kind);
        let rest = registry.drop_first();
        let i = choose|i: int| 0 <= i < registry.len() && registry[i] == kind;
        assert(rest[i - 1] == kind);
        lemma_named_finds(rest, kind);
    }
}

/// What a name finds in a list goes by that name and stands in the list.
pub proof fn lemma_named_is_sound(registry: Seq<ToolKind>, name: Seq<char>)
    ensures
        match named(registry, name) {
            Some(kind) => kind.spec_name() == name && registry.contains(kind),
            None => forall|i: int| 0 <= i < registry.len() ==> registry[i].spec_name() != name,
        },
    decreases registry.len(),
{
    if registry.len() == 0 {
    } else if registry.first().spec_name() == name {
    } else {
        let rest = registry.drop_first();
        lemma_named_is_sound(rest, name);
        match named(rest, name) {
            Some(kind) => {
                let i = choose|i: int| 0 <= i < rest.len() && rest[i] == kind;
            },
            None => {
                assert forall|i: int| 0 <= i < registry.len() implies registry[i].spec_name()
                    != name by {
                    if i > 0 {
                        assert(rest[i - 1] == registry[i]);
                    }
                }
            },
        }
    }
}

/// The most effects that a tool still asks for while it waits for this one.
pub open spec fn effects_left(pending: PendingView) -> nat {
    match pending {
        PendingView::ShellAnswer { command } => 2,
        PendingView::ReplaceRead { path, old_content, new_content } => 2,
        PendingView::SearchProbe { needle } => 2,
        PendingView::CommandDir { name, content } => 3,
        PendingView::CommandFile { name } => 2,
        _ => 1,
    }
}

/// The step that follows `outcome` for a tool that waits with `pending`.
pub open spec fn resumed(pending: PendingView, outcome: OutcomeView) -> StepView {
    match pending {
        PendingView::ListFiles => StepView::Reply(ListFilesTool::listed(outcome)),
        PendingView::CommandOutput => StepView::Reply(command_output(outcome)),
        PendingView::NodeYarn => StepView::Reply(NodeYarnTool::reported(outcome)),
        PendingView::ShowFile => StepView::Reply(ShowFileTool::shown(outcome)),
        PendingView::CargoCheck => StepView::Reply(RunCargoCheckTool::checked(outcome)),
        PendingView::ShellAnswer { command } => RunShellCommandTool::answered(command, outcome),
        PendingView::ShellRun => StepView::Reply(RunShellCommandTool::finished(outcome)),
        PendingView::CreateFile { path } => StepView::Reply(CreateFileTool::created(path, outcome)),
        PendingView::ReplaceRead { path, old_content, new_content } => {
            ReplaceContentTool::content_read(path, old_content, new_content, outcome)
        },
        PendingView::ReplaceWrite { path } => StepView::Reply(
            ReplaceContentTool::rewritten(path, outcome),
        ),
        PendingView::ReplaceCreate { path } => StepView::Reply(
            ReplaceContentTool::newly_created(path, outcome),
        ),
        PendingView::SearchProbe { needle } => SearchForStringTool::probed(needle, outcome),
        PendingView::SearchRun => StepView::Reply(SearchForStringTool::searched(outcome)),
        PendingView::SetContents { path } => StepView::Reply(
            SetWholeFileContentsTool::written(path, outcome),
        ),
        PendingView::ExtractStructure => StepView::Reply(ExtractStructureTool::outlined(outcome)),
        PendingView::GetUrl => StepView::Reply(GetUrlTool::fetched(outcome)),
        PendingView::CommandDir { name, content } => SetUserCommand::directory_ready(
            name,
            content,
            outcome,
        ),
        PendingView::CommandFile { name } => SetUserCommand::script_written(name, outcome),
        PendingView::CommandMode { name } => StepView::Reply(SetUserCommand::mode_set(name, outcome)),
        PendingView::SubAgent => StepView::Reply(SubMinerveTool::returned(outcome)),
    }
}

/// Takes the tool that waits with `pending` one step further, now that the
/// effect it asked for has ended in `outcome`.
pub fn resume(pending: Pending, outcome: Outcome) -> (out: Step)
    ensures
        out@ == resumed(pending@, outcome@),
        out@ matches StepView::Perform(effect, next) ==> effects_left(next) < effects_left(
            pending@,
        ),
{
    match pending {
        Pending::ListFiles => Step::Reply(ListFilesTool::after_listing(outcome)),
        Pending::CommandOutput => Step::Reply(after_command(outcome)),
        Pending::NodeYarn => Step::Reply(NodeYarnTool::after_run(outcome)),
        Pending::ShowFile => Step::Reply(ShowFileTool::after_read(outcome)),
        Pending::CargoCheck => Step::Reply(RunCargoCheckTool::after_check(outcome)),
        Pending::ShellAnswer { command } => RunShellCommandTool::after_answer(command, outcome),
        Pending::ShellRun => Step::Reply(RunShellCommandTool::after_run(outcome)),
        Pending::CreateFile { path } => Step::Reply(CreateFileTool::after_write(path, outcome)),
        Pending::ReplaceRead { path, old_content, new_content } => ReplaceContentTool::after_read(
            path,
            old_content,
            new_content,
            outcome,
        ),
        Pending::ReplaceWrite { path } => Step::Reply(
            ReplaceContentTool::after_write(path, outcome),
        ),
        Pending::ReplaceCreate { path } => Step::Reply(
            ReplaceContentTool::after_create(path, outcome),
        ),
        Pending::SearchProbe { needle } => SearchForStringTool::after_probe(needle, outcome),
        Pending::SearchRun => Step::Reply(SearchForStringTool::after_search(outcome)),
        Pending::SetContents { path } => Step::Reply(
            SetWholeFileContentsTool::after_write(path, outcome),
        ),
        Pending::ExtractStructure => Step::Reply(ExtractStructureTool::after_lines(outcome)),
        Pending::GetUrl => Step::Reply(GetUrlTool::after_fetch(outcome)),
        Pending::CommandDir { name, content } => SetUserCommand::after_directory(
            name,
            content,
            outcome,
        ),
        Pending::CommandFile { name } => SetUserCommand::after_script(name, outcome),
        Pending::CommandMode { name } => Step::Reply(SetUserCommand::after_mode(name, outcome)),
        Pending::SubAgent => Step::Reply(SubMinerveTool::after_session(outcome)),
    }
}

} // verus!
