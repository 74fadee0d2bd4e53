//! The tools that the model may invoke: what each one is called, what it
//! takes, and what it answers to what its surroundings report.

pub mod create_file_tool;
pub mod extract_structure_tool;
pub mod get_url_tool;
pub mod git_diff_cached_tool;
pub mod git_diff_tool;
pub mod git_status_tool;
pub mod list_files_tool;
pub mod node_yarn_tool;
pub mod params;
pub mod registry;
pub mod replace_content_tool;
pub mod run_cargo_check_tool;
pub mod run_shell_command_tool;
pub mod schema;
pub mod search_for_string_tool;
pub mod set_user_command;
pub mod set_whole_file_contents_tool;
pub mod show_file_tool;
pub mod step;
pub mod subminerve_tool;

pub use crate::tools::params::{ParamName, ToolParams};
use crate::tools::schema::{schema_of, FunctionSchema};
use crate::tools::step::{Step, StepView};
use vstd::prelude::*;

verus! {

/// The settings under which a command is executed.
#[derive(Debug, Clone, Copy)]
pub struct ExecuteCommandSettings {
    pub is_headless: bool,
}

impl Default for ExecuteCommandSettings {
    fn default() -> (out: Self)
        ensures
            !out.is_headless,
    {
        ExecuteCommandSettings { is_headless: false }
    }
}

/// What every tool declares of itself.
pub trait Tool {
    /// The name under which the model invokes the tool.
    spec fn spec_name(&self) -> Seq<char>;

    /// The description shown to the model.
    spec fn spec_description(&self) -> Seq<char>;

    /// The declared parameters, each with its type.
    spec fn spec_parameters(&self) -> Seq<(Seq<char>, Seq<char>)>;

    /// The name under which the model invokes the tool.
    fn name(&self) -> (out: &'static str)
        ensures
            out@ == self.spec_name(),
    ;

    /// The description shown to the model.
    fn description(&self) -> (out: &'static str)
        ensures
            out@ == self.spec_description(),
    ;

    /// The declared parameters, each with its type.
    fn parameters(&self) -> (out: Vec<(&'static str, &'static str)>)
        ensures
            out.deep_view() == self.spec_parameters(),
    ;

    /// The first step of the tool on the given arguments.
    spec fn spec_run(&self, args: Seq<(Seq<char>, Seq<char>)>, is_headless: bool) -> StepView;

    /// Begins the tool on the given arguments: its answer, where it has one
    /// at once, or the first effect it needs.
    fn run(&self, params: &ToolParams, settings: ExecuteCommandSettings) -> (out: Step)
        ensures
            out@ == self.spec_run(params@, settings.is_headless),
    ;

    /// The definition of the tool's parameters that goes out to the model.
    fn function_definition(&self) -> (out: FunctionSchema)
        ensures
            out@ == schema_of(self.spec_parameters()),
    {
        let parameters = self.parameters();
        schema::definition_of(&parameters)
    }
}

} // verus!
