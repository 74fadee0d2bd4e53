use minerve::tools::create_file_tool::CreateFileTool;
use minerve::tools::extract_structure_tool::{extract_structure, ExtractStructureTool};
use minerve::tools::get_url_tool::GetUrlTool;
use minerve::tools::git_diff_cached_tool::GitDiffCachedTool;
use minerve::tools::git_diff_tool::GitDiffTool;
use minerve::tools::git_status_tool::GitStatusTool;
use minerve::tools::list_files_tool::ListFilesTool;
use minerve::tools::node_yarn_tool::NodeYarnTool;
use minerve::tools::params::ToolParams;
use minerve::tools::registry::{find_tool, get_tool_registry, resume, ToolKind};
use minerve::tools::run_cargo_check_tool::RunCargoCheckTool;
use minerve::tools::run_shell_command_tool::RunShellCommandTool;
use minerve::tools::search_for_string_tool::SearchForStringTool;
use minerve::tools::set_user_command::SetUserCommand;
use minerve::tools::set_whole_file_contents_tool::SetWholeFileContentsTool;
use minerve::tools::show_file_tool::ShowFileTool;
use minerve::tools::step::{after_command, error, run1, run2, unexpected, Effect, Outcome, Pending, Step};
use minerve::tools::subminerve_tool::SubMinerveTool;
use minerve::tools::{ExecuteCommandSettings, Tool};

fn params(entries: &[(&str, &str)]) -> ToolParams {
    ToolParams::new(entries.iter().map(|(k, v)| (k.to_string(), v.to_string())).collect())
}

fn screen() -> ExecuteCommandSettings {
    ExecuteCommandSettings { is_headless: false }
}

fn terminal() -> ExecuteCommandSettings {
    ExecuteCommandSettings { is_headless: true }
}

fn exited(success: bool, stdout: &str, stderr: &str) -> Outcome {
    Outcome::Exited { success, stdout: stdout.to_string(), stderr: stderr.to_string() }
}

fn shell(line: &str) -> Effect {
    Effect::Run { program: "sh".to_string(), args: vec!["-c".to_string(), line.to_string()] }
}

#[test]
fn run_effects_carry_program_and_arguments() {
    assert_eq!(
        run1("git", "status"),
        Effect::Run { program: "git".to_string(), args: vec!["status".to_string()] }
    );
    assert_eq!(run2("sh", "-c", "ls -l"), shell("ls -l"));
    assert_eq!(error("boom"), "[Error] boom");
    assert_eq!(unexpected(), "[Error] Unexpected outcome");
}

#[test]
fn command_output_is_handed_on_whatever_the_exit() {
    assert_eq!(after_command(exited(true, "out", "err")), "out");
    assert_eq!(after_command(exited(false, "out", "err")), "out");
    assert_eq!(after_command(Outcome::Failed("No such file".to_string())), "[Error] No such file");
    assert_eq!(after_command(Outcome::Done), "[Error] Unexpected outcome");
}

#[test]
fn list_files_lists_the_given_directory_or_the_current_one() {
    assert_eq!(ListFilesTool.name(), "list_files");
    assert_eq!(ListFilesTool.description(), "Lists files in a directory");
    assert_eq!(ListFilesTool.parameters(), vec![("dir", "string")]);
    assert_eq!(
        ListFilesTool.run(&params(&[]), screen()),
        Step::Perform(Effect::ListDir { path: ".".to_string() }, Pending::ListFiles)
    );
    assert_eq!(
        ListFilesTool.run(&params(&[("dir", "src")]), terminal()),
        Step::Perform(Effect::ListDir { path: "src".to_string() }, Pending::ListFiles)
    );
    assert_eq!(
        ListFilesTool::after_listing(Outcome::Lines(vec!["a.txt".to_string(), "b.txt".to_string()])),
        "a.txt\nb.txt"
    );
    assert_eq!(ListFilesTool::after_listing(Outcome::Lines(vec![])), "");
    assert_eq!(
        ListFilesTool::after_listing(Outcome::Failed("denied".to_string())),
        "[Error] Failed to list files: denied"
    );
    assert_eq!(
        ListFilesTool::after_listing(Outcome::Missing("gone".to_string())),
        "[Error] Failed to list files: gone"
    );
    assert_eq!(ListFilesTool::after_listing(Outcome::Answer(true)), "[Error] Unexpected outcome");
}

#[test]
fn git_tools_run_git() {
    assert_eq!(GitStatusTool.name(), "git_status");
    assert_eq!(GitStatusTool.description(), "Gets the current git status of the repository.");
    assert_eq!(GitDiffTool.name(), "git_diff");
    assert_eq!(GitDiffTool.description(), "Gets the current git diff of the repository.");
    assert_eq!(GitDiffCachedTool.name(), "git_diff_cached");
    assert_eq!(GitDiffCachedTool.description(), "Gets the current git diff of the repository.");
    assert!(GitStatusTool.parameters().is_empty());
    assert!(GitDiffTool.parameters().is_empty());
    assert!(GitDiffCachedTool.parameters().is_empty());
    assert_eq!(
        GitStatusTool.run(&params(&[("x", "y")]), screen()),
        Step::Perform(run1("git", "status"), Pending::CommandOutput)
    );
    assert_eq!(
        GitDiffTool.run(&params(&[]), screen()),
        Step::Perform(run1("git", "diff"), Pending::CommandOutput)
    );
    assert_eq!(
        GitDiffCachedTool.run(&params(&[]), screen()),
        Step::Perform(run2("git", "diff", "--cached"), Pending::CommandOutput)
    );
    assert_eq!(
        resume(Pending::CommandOutput, exited(false, "On branch main", "warning")),
        Step::Reply("On branch main".to_string())
    );
}

#[test]
fn show_file_reads_the_file_it_is_given() {
    assert_eq!(ShowFileTool.name(), "show_file");
    assert_eq!(ShowFileTool.description(), "Shows the content of a file.");
    assert_eq!(ShowFileTool.parameters(), vec![("filepath", "string")]);
    assert_eq!(
        ShowFileTool.run(&params(&[("filepath", "a.rs")]), screen()),
        Step::Perform(Effect::ReadFile { path: "a.rs".to_string() }, Pending::ShowFile)
    );
    assert_eq!(
        ShowFileTool.run(&params(&[("filepath", "")]), screen()),
        Step::Reply(
            "[Error] Parameter 'filepath' is required and must be a non-empty string.".to_string()
        )
    );
    assert_eq!(ShowFileTool::after_read(Outcome::Text("fn main() {}".to_string())), "fn main() {}");
    assert_eq!(
        ShowFileTool::after_read(Outcome::Missing("whatever".to_string())),
        "[file does not exist]"
    );
    assert_eq!(
        ShowFileTool::after_read(Outcome::Failed(
            "No such file or directory (os error 2)".to_string()
        )),
        "[file does not exist]"
    );
    assert_eq!(
        ShowFileTool::after_read(Outcome::Failed("Permission denied".to_string())),
        "[Error] Failed to read file: Permission denied"
    );
    assert_eq!(ShowFileTool::after_read(Outcome::Done), "[Error] Unexpected outcome");
}

#[test]
fn cargo_check_reports_output_and_diagnostics() {
    assert_eq!(RunCargoCheckTool.name(), "run_cargo_check");
    assert_eq!(RunCargoCheckTool.description(), "Runs `cargo check` in the current directory.");
    assert!(RunCargoCheckTool.parameters().is_empty());
    assert_eq!(
        RunCargoCheckTool.run(&params(&[]), screen()),
        Step::Perform(run1("cargo", "check"), Pending::CargoCheck)
    );
    assert_eq!(RunCargoCheckTool::after_check(exited(true, "ok", "")), "ok");
    assert_eq!(
        RunCargoCheckTool::after_check(exited(true, "", "Finished dev")),
        "\nFinished dev"
    );
    assert_eq!(
        RunCargoCheckTool::after_check(exited(true, "out", "warn")),
        "out\nwarn"
    );
    assert_eq!(
        RunCargoCheckTool::after_check(exited(false, "out", "error[E0308]")),
        "[Error] error[E0308]"
    );
    assert_eq!(
        RunCargoCheckTool::after_check(Outcome::Failed("cargo not found".to_string())),
        "[Error] cargo not found"
    );
    assert_eq!(RunCargoCheckTool::after_check(Outcome::Closed), "[Error] Unexpected outcome");
}

#[test]
fn node_yarn_runs_the_typescript_compiler() {
    assert_eq!(NodeYarnTool.name(), "NodeYarnTool");
    assert_eq!(
        NodeYarnTool.description(),
        "Runs `NODE_OPTIONS=\"--max-old-space-size=8192\" yarn run tsc --incremental`"
    );
    assert!(NodeYarnTool.parameters().is_empty());
    assert_eq!(
        NodeYarnTool.run(&params(&[]), screen()),
        Step::Perform(
            shell("NODE_OPTIONS=\"--max-old-space-size=8192\" yarn run tsc --incremental"),
            Pending::NodeYarn
        )
    );
    assert_eq!(NodeYarnTool::after_run(exited(false, "errors", "x")), "errors");
    assert_eq!(NodeYarnTool::after_run(Outcome::Failed("no sh".to_string())), "no sh");
    assert_eq!(NodeYarnTool::after_run(Outcome::Done), "[Error] Unexpected outcome");
}

#[test]
fn shell_command_runs_at_once_at_the_screen() {
    assert_eq!(RunShellCommandTool.name(), "run_shell_command");
    assert_eq!(
        RunShellCommandTool.description(),
        "Runs a shell command. Use external UI for confirmation."
    );
    assert_eq!(
        RunShellCommandTool.parameters(),
        vec![("command", "string"), ("is_headless", "string")]
    );
    assert_eq!(
        RunShellCommandTool.run(&params(&[("command", "ls -l")]), screen()),
        Step::Perform(shell("ls -l"), Pending::ShellRun)
    );
    assert_eq!(
        RunShellCommandTool::execute_command("ls", None),
        Step::Perform(shell("ls"), Pending::ShellRun)
    );
    assert_eq!(
        RunShellCommandTool.run_with_settings(&params(&[]), screen()),
        Step::Reply(
            "[Error] Parameter 'command' is required and must be a non-empty string.".to_string()
        )
    );
}

#[test]
fn shell_command_asks_first_on_the_terminal() {
    assert_eq!(
        RunShellCommandTool.run(&params(&[("command", "rm -rf x")]), terminal()),
        Step::Perform(
            Effect::Prompt { text: "Do you want to run the command 'rm -rf x'? (y/n): ".to_string() },
            Pending::ShellAnswer { command: "rm -rf x".to_string() }
        )
    );
    for yes in ["y", "yes", "Y", " YES \n", "yEs\r\n", "\ty"] {
        assert_eq!(
            RunShellCommandTool::after_answer("rm -rf x".to_string(), Outcome::Text(yes.to_string())),
            Step::Perform(shell("rm -rf x"), Pending::ShellRun),
            "answer: {:?}",
            yes
        );
        assert!(RunShellCommandTool::is_agreement(yes));
    }
    for no in ["n", "no", "", "\n", "yeah", "y es", "ye", "yess", "sure"] {
        assert_eq!(
            RunShellCommandTool::after_answer("rm -rf x".to_string(), Outcome::Text(no.to_string())),
            Step::Reply("Command execution cancelled by user.".to_string()),
            "answer: {:?}",
            no
        );
        assert!(!RunShellCommandTool::is_agreement(no));
    }
    assert_eq!(
        RunShellCommandTool::after_answer("ls".to_string(), Outcome::Failed("eof".to_string())),
        Step::Reply("[Error] Failed to read user input".to_string())
    );
    assert_eq!(
        RunShellCommandTool::after_answer("ls".to_string(), Outcome::Done),
        Step::Reply("[Error] Unexpected outcome".to_string())
    );
}

#[test]
fn yes_is_spelled_y_or_yes() {
    assert!(RunShellCommandTool::is_yes("y"));
    assert!(RunShellCommandTool::is_yes("yes"));
    for other in ["", "Y", "yes ", "ye", "n", "no"] {
        assert!(!RunShellCommandTool::is_yes(other), "word: {:?}", other);
    }
}

#[test]
fn shell_command_reports_output_or_diagnostics() {
    assert_eq!(RunShellCommandTool::after_run(exited(true, "file\n", "noise")), "file\n");
    assert_eq!(RunShellCommandTool::after_run(exited(false, "partial", "bad")), "[Error] bad");
    assert_eq!(
        RunShellCommandTool::after_run(Outcome::Failed("no shell".to_string())),
        "[Error] no shell"
    );
    assert_eq!(RunShellCommandTool::after_run(Outcome::Text("x".to_string())), "[Error] Unexpected outcome");
}

#[test]
fn create_file_writes_the_content_or_nothing() {
    assert_eq!(CreateFileTool.name(), "create_file");
    assert_eq!(CreateFileTool.description(), "Creates a new file with specified content.");
    assert_eq!(
        CreateFileTool.parameters(),
        vec![("filepath", "string"), ("content", "optional string")]
    );
    assert_eq!(
        CreateFileTool.run(&params(&[("filepath", "n.txt"), ("content", "hi")]), screen()),
        Step::Perform(
            Effect::WriteFile { path: "n.txt".to_string(), content: "hi".to_string() },
            Pending::CreateFile { path: "n.txt".to_string() }
        )
    );
    assert_eq!(
        CreateFileTool.run(&params(&[("filepath", "")]), screen()),
        Step::Perform(
            Effect::WriteFile { path: "".to_string(), content: "".to_string() },
            Pending::CreateFile { path: "".to_string() }
        )
    );
    assert_eq!(
        CreateFileTool.run(&params(&[("content", "hi")]), screen()),
        Step::Reply("[Error] Missing 'filepath' parameter.".to_string())
    );
    assert_eq!(
        CreateFileTool::after_write("n.txt".to_string(), Outcome::Done),
        "\u{2705} Successfully created file n.txt"
    );
    assert_eq!(
        CreateFileTool::after_write("n.txt".to_string(), Outcome::Failed("read-only".to_string())),
        "[Error] Failed to create file n.txt: read-only"
    );
    assert_eq!(
        CreateFileTool::after_write("n.txt".to_string(), Outcome::Lines(vec![])),
        "[Error] Unexpected outcome"
    );
}

#[test]
fn set_whole_file_contents_wants_path_and_content() {
    assert_eq!(SetWholeFileContentsTool.name(), "set_whole_file_contents");
    assert_eq!(
        SetWholeFileContentsTool.description(),
        "Sets the entire contents of a file to the provided content. Only use this for files you fully understand."
    );
    assert_eq!(
        SetWholeFileContentsTool.parameters(),
        vec![("filepath", "string"), ("content", "string")]
    );
    assert_eq!(
        SetWholeFileContentsTool.run(&params(&[("filepath", "a"), ("content", "b")]), screen()),
        Step::Perform(
            Effect::WriteFile { path: "a".to_string(), content: "b".to_string() },
            Pending::SetContents { path: "a".to_string() }
        )
    );
    assert_eq!(
        SetWholeFileContentsTool.run(&params(&[("content", "b")]), screen()),
        Step::Reply(
            "[Error] Parameter 'filepath' is required and must be a non-empty string.".to_string()
        )
    );
    assert_eq!(
        SetWholeFileContentsTool.run(&params(&[("filepath", "a"), ("content", "")]), screen()),
        Step::Reply(
            "[Error] Parameter 'content' is required and must be a non-empty string.".to_string()
        )
    );
    assert_eq!(
        SetWholeFileContentsTool::after_write("a".to_string(), Outcome::Done),
        "Successfully set contents of file: a"
    );
    assert_eq!(
        SetWholeFileContentsTool::after_write("a".to_string(), Outcome::Failed("full".to_string())),
        "[Error] Failed to write to file a: full"
    );
}

#[test]
fn get_url_fetches_and_names_the_half_that_failed() {
    assert_eq!(GetUrlTool.name(), "get_url");
    assert_eq!(GetUrlTool.description(), "Fetches the content of a URL as plaintext.");
    assert_eq!(GetUrlTool.parameters(), vec![("url", "string")]);
    assert_eq!(
        GetUrlTool.run(&params(&[("url", "https://example.org")]), screen()),
        Step::Perform(Effect::Fetch { url: "https://example.org".to_string() }, Pending::GetUrl)
    );
    assert_eq!(
        GetUrlTool.run(&params(&[]), screen()),
        Step::Reply("[Error] URL parameter is missing.".to_string())
    );
    assert_eq!(GetUrlTool::after_fetch(Outcome::Text("<html>".to_string())), "<html>");
    assert_eq!(
        GetUrlTool::after_fetch(Outcome::Failed("dns".to_string())),
        "[Error] Failed to fetch the URL."
    );
    assert_eq!(
        GetUrlTool::after_fetch(Outcome::Broken("utf8".to_string())),
        "[Error] Failed to convert response to text."
    );
    assert_eq!(GetUrlTool::after_fetch(Outcome::Done), "[Error] Unexpected outcome");
}

#[test]
fn search_probes_for_ag_and_falls_back_to_grep() {
    assert_eq!(SearchForStringTool.name(), "search_for_string");
    assert_eq!(
        SearchForStringTool.description(),
        "Searches for a string in the current directory using ag or grep, excluding gitignored files."
    );
    assert_eq!(SearchForStringTool.parameters(), vec![("search_string", "string")]);
    assert_eq!(
        SearchForStringTool.run(&params(&[("search_string", "todo")]), screen()),
        Step::Perform(shell("command -v ag"), Pending::SearchProbe { needle: "todo".to_string() })
    );
    assert_eq!(
        SearchForStringTool.run(&params(&[]), screen()),
        Step::Reply(
            "[Error] Parameter 'search_string' is required and must be a non-empty string."
                .to_string()
        )
    );
    assert_eq!(
        SearchForStringTool::after_probe("todo".to_string(), exited(true, "/usr/bin/ag", "")),
        Step::Perform(
            shell("ag --ignore .git --ignore node_modules \"todo\""),
            Pending::SearchRun
        )
    );
    for absent in [exited(false, "", ""), Outcome::Failed("no sh".to_string()), Outcome::Done] {
        assert_eq!(
            SearchForStringTool::after_probe("todo".to_string(), absent),
            Step::Perform(
                shell("grep -r --exclude-dir={.git,node_modules} \"todo\" ."),
                Pending::SearchRun
            )
        );
    }
}

#[test]
fn search_output_is_cut_at_two_thousand_characters() {
    let long: String = "x".repeat(2500);
    let cut = SearchForStringTool::after_search(exited(true, &long, ""));
    assert_eq!(cut.len(), 2000);
    assert_eq!(cut, "x".repeat(2000));
    assert_eq!(SearchForStringTool::after_search(exited(true, "short", "")), "short");
    assert_eq!(
        SearchForStringTool::after_search(Outcome::Failed("no grep".to_string())),
        "[Error] no grep"
    );
    let exact: String = "y".repeat(2000);
    assert_eq!(SearchForStringTool::after_search(exited(false, &exact, "")), exact);
}

#[test]
fn set_user_command_makes_directory_script_and_mode() {
    assert_eq!(SetUserCommand.name(), "set_user_command");
    assert_eq!(SetUserCommand.description(), "Manage user script commands.");
    assert_eq!(
        SetUserCommand.parameters(),
        vec![("script_name", "string"), ("content", "string")]
    );
    assert_eq!(
        SetUserCommand.run(&params(&[("script_name", "deploy"), ("content", "echo hi")]), screen()),
        Step::Perform(
            Effect::CreateDir { path: ".minerve/commands".to_string() },
            Pending::CommandDir { name: "deploy".to_string(), content: "echo hi".to_string() }
        )
    );
    assert_eq!(
        SetUserCommand.run(&params(&[("content", "echo hi")]), screen()),
        Step::Reply("[Error] Missing 'script_name' parameter.".to_string())
    );
    assert_eq!(
        SetUserCommand.run(&params(&[("script_name", "deploy")]), screen()),
        Step::Reply("[Error] Missing 'content' parameter.".to_string())
    );
    assert_eq!(
        SetUserCommand::after_directory("deploy".to_string(), "echo hi".to_string(), Outcome::Done),
        Step::Perform(
            Effect::WriteScript {
                dir: ".minerve/commands".to_string(),
                file: "deploy.sh".to_string(),
                content: "echo hi".to_string()
            },
            Pending::CommandFile { name: "deploy".to_string() }
        )
    );
    assert_eq!(
        SetUserCommand::after_directory("d".to_string(), "c".to_string(), Outcome::Failed("ro".to_string())),
        Step::Reply("[Error] Failed to create directory: ro".to_string())
    );
    assert_eq!(
        SetUserCommand::after_script("deploy".to_string(), Outcome::Done),
        Step::Perform(
            Effect::SetMode {
                dir: ".minerve/commands".to_string(),
                file: "deploy.sh".to_string(),
                mode: 0o755
            },
            Pending::CommandMode { name: "deploy".to_string() }
        )
    );
    assert_eq!(
        SetUserCommand::after_script("deploy".to_string(), Outcome::Failed("denied".to_string())),
        Step::Reply("[Error] Failed to create script file: denied".to_string())
    );
    assert_eq!(
        SetUserCommand::after_script("deploy".to_string(), Outcome::Broken("disk full".to_string())),
        Step::Reply("[Error] Failed to write content: disk full".to_string())
    );
    assert_eq!(
        SetUserCommand::after_mode("deploy".to_string(), Outcome::Done),
        "\u{2705} User command 'deploy' created successfully."
    );
    assert_eq!(
        SetUserCommand::after_mode("deploy".to_string(), Outcome::Failed("nope".to_string())),
        "[Error] Failed to set permissions: nope"
    );
}

#[test]
fn subminerve_hands_the_prompt_to_a_nested_session() {
    assert_eq!(SubMinerveTool.name(), "subminerve");
    assert_eq!(SubMinerveTool.parameters(), vec![("prompt", "string")]);
    assert_eq!(
        SubMinerveTool.run(&params(&[("prompt", "count the files")]), screen()),
        Step::Perform(Effect::SubAgent { prompt: "count the files".to_string() }, Pending::SubAgent)
    );
    assert_eq!(
        SubMinerveTool.run(&params(&[]), screen()),
        Step::Reply(
            "[Error] Parameter 'prompt' is required and must be a non-empty string.".to_string()
        )
    );
    assert_eq!(SubMinerveTool::after_session(Outcome::Text("12 files".to_string())), "12 files");
    assert_eq!(
        SubMinerveTool::after_session(Outcome::Failed("crashed".to_string())),
        "[Error] crashed"
    );
}

#[test]
fn extract_structure_outlines_nested_blocks() {
    let lines: Vec<String> = [
        "// a comment",
        "fn main() {",
        "    let x = 1;",
        "    if x > 0 {",
        "        println!(\"hi\");",
        "    }",
        "}",
        "",
        "/* block */",
        " * star",
        "class A:",
        "struct S { a: u8 }",
        "}",
        "}",
        "}",
        "}",
        "impl S {",
    ]
    .iter()
    .map(|s| s.to_string())
    .collect();
    let expected = "fn main()\n    // [...]\n    if x > 0\n        // [...]\nclass A:\n    // [...]\n    struct S  a: u8 }\n        // [...]\nimpl S\n    // [...]\n";
    assert_eq!(extract_structure(&lines), expected);
    assert_eq!(extract_structure(&vec![]), "");
    assert_eq!(ExtractStructureTool::after_lines(Outcome::Lines(lines)), expected);
    assert_eq!(
        ExtractStructureTool::after_lines(Outcome::Failed("No such file".to_string())),
        "[Error] Failed to extract structure: No such file"
    );
}

#[test]
fn extract_structure_reads_lines_of_the_given_file() {
    assert_eq!(ExtractStructureTool.name(), "extract_structure");
    assert_eq!(
        ExtractStructureTool.description(),
        "Extracts structure of a file, showing nested blocks. Use this to get an overview of a code file."
    );
    assert_eq!(ExtractStructureTool.parameters(), vec![("filepath", "string")]);
    assert_eq!(
        ExtractStructureTool.run(&params(&[("filepath", "m.rs")]), screen()),
        Step::Perform(Effect::ReadLines { path: "m.rs".to_string() }, Pending::ExtractStructure)
    );
    assert_eq!(
        ExtractStructureTool.run(&params(&[]), screen()),
        Step::Reply("[Error] Missing 'filepath' parameter.".to_string())
    );
}

#[test]
fn registry_offers_the_ordinary_tools_and_nesting_only_outside() {
    let outer = get_tool_registry(false);
    let inner = get_tool_registry(true);
    let names: Vec<&str> = outer.iter().map(|kind| kind.name()).collect();
    assert_eq!(
        names,
        vec![
            "search_for_string",
            "list_files",
            "git_status",
            "git_diff",
            "git_diff_cached",
            "show_file",
            "replace_content",
            "run_cargo_check",
            "run_shell_command",
            "set_whole_file_contents",
            "subminerve",
        ]
    );
    assert_eq!(inner.len(), 10);
    assert_eq!(&outer[..10], &inner[..]);
    assert!(!inner.contains(&ToolKind::SubMinerve));
}

#[test]
fn registry_names_are_unique_and_find_their_tool() {
    let all = [
        ToolKind::SearchForString,
        ToolKind::ListFiles,
        ToolKind::GitStatus,
        ToolKind::GitDiff,
        ToolKind::GitDiffCached,
        ToolKind::ShowFile,
        ToolKind::ReplaceContent,
        ToolKind::RunCargoCheck,
        ToolKind::RunShellCommand,
        ToolKind::SetWholeFileContents,
        ToolKind::SubMinerve,
        ToolKind::CreateFile,
        ToolKind::ExtractStructure,
        ToolKind::GetUrl,
        ToolKind::NodeYarn,
        ToolKind::SetUserCommand,
    ];
    for (i, a) in all.iter().enumerate() {
        for (j, b) in all.iter().enumerate() {
            assert_eq!(a.name() == b.name(), i == j);
        }
    }
    let registry = get_tool_registry(false);
    for kind in registry.iter() {
        assert_eq!(find_tool(&registry, kind.name()), Some(*kind));
    }
    assert_eq!(find_tool(&registry, "does_not_exist"), None);
    assert_eq!(find_tool(&registry, "create_file"), None);
    assert_eq!(find_tool(&registry, ""), None);
    assert_eq!(find_tool(&get_tool_registry(true), "subminerve"), None);
    assert_eq!(find_tool(&vec![], "list_files"), None);
}

#[test]
fn only_the_shell_is_destructive_and_only_subminerve_nests() {
    for kind in get_tool_registry(false) {
        assert_eq!(kind.is_destructive(), kind == ToolKind::RunShellCommand);
        assert_eq!(kind.spawns_sub_agent(), kind == ToolKind::SubMinerve);
    }
}

#[test]
fn kinds_answer_as_their_tools_do() {
    assert_eq!(ToolKind::ListFiles.description(), ListFilesTool.description());
    assert_eq!(ToolKind::ShowFile.parameters(), ShowFileTool.parameters());
    assert_eq!(ToolKind::SetUserCommand.name(), "set_user_command");
    assert_eq!(
        ToolKind::ListFiles.run(&params(&[("dir", "x")]), screen()),
        ListFilesTool.run(&params(&[("dir", "x")]), screen())
    );
    assert_eq!(
        ToolKind::RunShellCommand.function_definition(),
        RunShellCommandTool.function_definition()
    );
}

#[test]
fn resume_leads_each_waiting_tool_on() {
    assert_eq!(
        resume(Pending::ListFiles, Outcome::Lines(vec!["a".to_string()])),
        Step::Reply("a".to_string())
    );
    assert_eq!(
        resume(Pending::ShellAnswer { command: "ls".to_string() }, Outcome::Text("y\n".to_string())),
        Step::Perform(shell("ls"), Pending::ShellRun)
    );
    assert_eq!(resume(Pending::ShellRun, exited(true, "done", "")), Step::Reply("done".to_string()));
    assert_eq!(
        resume(Pending::CreateFile { path: "p".to_string() }, Outcome::Done),
        Step::Reply("\u{2705} Successfully created file p".to_string())
    );
    assert_eq!(
        resume(Pending::SetContents { path: "p".to_string() }, Outcome::Done),
        Step::Reply("Successfully set contents of file: p".to_string())
    );
    assert_eq!(
        resume(Pending::SearchRun, exited(true, "hit", "")),
        Step::Reply("hit".to_string())
    );
    assert_eq!(
        resume(Pending::GetUrl, Outcome::Text("body".to_string())),
        Step::Reply("body".to_string())
    );
    assert_eq!(
        resume(Pending::NodeYarn, exited(true, "tsc", "")),
        Step::Reply("tsc".to_string())
    );
    assert_eq!(
        resume(Pending::CargoCheck, exited(false, "", "E")),
        Step::Reply("[Error] E".to_string())
    );
    assert_eq!(
        resume(Pending::ShowFile, Outcome::Text("t".to_string())),
        Step::Reply("t".to_string())
    );
    assert_eq!(
        resume(Pending::ExtractStructure, Outcome::Lines(vec!["a {".to_string()])),
        Step::Reply("a\n    // [...]\n".to_string())
    );
    assert_eq!(
        resume(Pending::CommandMode { name: "n".to_string() }, Outcome::Done),
        Step::Reply("\u{2705} User command 'n' created successfully.".to_string())
    );
    assert_eq!(
        resume(Pending::SubAgent, Outcome::Text("said".to_string())),
        Step::Reply("said".to_string())
    );
}
