use minerve::chat::{ChatCompletionFunctionCall, ChatCompletionMessage, ChatCompletionMessageRole, ToolCallResult};
use minerve::dispatch::{
    arguments_from_entries, decode_arguments, handle_tool_call, reading_notice, resume_tool_call,
    running_notice, stage, Dispatch, DispatchState, SessionContext,
};
use minerve::guard::RecursionGuard;
use minerve::json::{coerce, JsonValue};
use minerve::tools::step::{Effect, Outcome, Pending, Step};

fn call(name: &str, arguments: &str) -> ChatCompletionFunctionCall {
    ChatCompletionFunctionCall { name: name.to_string(), arguments: arguments.to_string() }
}

fn screen() -> SessionContext {
    SessionContext::new(false)
}

fn terminal() -> SessionContext {
    SessionContext::new(true)
}

fn shell(line: &str) -> Effect {
    Effect::Run { program: "sh".to_string(), args: vec!["-c".to_string(), line.to_string()] }
}

fn success(tool: &str, output: &str) -> Dispatch {
    Dispatch::Finished(ToolCallResult::Success(ChatCompletionMessage::function_result(
        tool,
        output.to_string(),
    )))
}

fn run_to_end(mut stage: Dispatch, context: &mut SessionContext, mut outcomes: Vec<Outcome>) -> (ToolCallResult, Vec<Effect>) {
    let mut effects = Vec::new();
    outcomes.reverse();
    loop {
        match stage {
            Dispatch::Finished(result) => return (result, effects),
            Dispatch::Perform(effect, state) => {
                effects.push(effect);
                let outcome = outcomes.pop().expect("the script of outcomes ran out");
                stage = resume_tool_call(state, outcome, context);
            }
        }
    }
}

#[test]
fn coerce_turns_values_into_texts() {
    assert_eq!(coerce(&JsonValue::Text("as is".to_string())), "as is");
    assert_eq!(coerce(&JsonValue::Number("42".to_string())), "42");
    assert_eq!(coerce(&JsonValue::Bool(true)), "true");
    assert_eq!(coerce(&JsonValue::Bool(false)), "false");
    assert_eq!(coerce(&JsonValue::Null), "null");
    assert_eq!(coerce(&JsonValue::Array("[1,2]".to_string())), "[1,2]");
    assert_eq!(coerce(&JsonValue::Object("{\"a\":1}".to_string())), "{\"a\":1}");
}

#[test]
fn arguments_from_entries_keeps_order_and_coerces() {
    let params = arguments_from_entries(&vec![
        ("b".to_string(), JsonValue::Bool(true)),
        ("a".to_string(), JsonValue::Text("x".to_string())),
        ("n".to_string(), JsonValue::Number("-3".to_string())),
    ]);
    assert_eq!(params.len(), 3);
    assert_eq!(params.get("a"), Some(&"x".to_string()));
    assert_eq!(params.get("b"), Some(&"true".to_string()));
    assert_eq!(params.get("n"), Some(&"-3".to_string()));
    assert_eq!(arguments_from_entries(&vec![]).len(), 0);
}

#[test]
fn decode_arguments_stringifies_every_kind_of_value() {
    let params = decode_arguments(
        "{\"s\": \"text\", \"i\": 42, \"neg\": -7, \"f\": 1.5, \"t\": true, \"no\": false, \"nil\": null, \"arr\": [1, \"two\", null], \"obj\": {\"k\": [true]}, \"esc\": \"a\\nb\\\"c\"}",
    );
    assert_eq!(params.len(), 10);
    assert_eq!(params.get("s"), Some(&"text".to_string()));
    assert_eq!(params.get("i"), Some(&"42".to_string()));
    assert_eq!(params.get("neg"), Some(&"-7".to_string()));
    assert_eq!(params.get("f"), Some(&"1.5".to_string()));
    assert_eq!(params.get("t"), Some(&"true".to_string()));
    assert_eq!(params.get("no"), Some(&"false".to_string()));
    assert_eq!(params.get("nil"), Some(&"null".to_string()));
    assert_eq!(params.get("arr"), Some(&"[1,\"two\",null]".to_string()));
    assert_eq!(params.get("obj"), Some(&"{\"k\":[true]}".to_string()));
    assert_eq!(params.get("esc"), Some(&"a\nb\"c".to_string()));
    assert_eq!(params.get("missing"), None);
}

#[test]
fn decode_arguments_of_what_is_no_object_is_empty() {
    for payload in ["", "not json", "[1, 2]", "\"text\"", "42", "null", "true", "{\"a\": 1", "{a: 1}", "{} trailing"] {
        assert_eq!(decode_arguments(payload).len(), 0, "payload: {:?}", payload);
    }
    assert_eq!(decode_arguments("{}").len(), 0);
    assert_eq!(decode_arguments("  { \"a\" : \"b\" }  ").get("a"), Some(&"b".to_string()));
}

#[test]
fn decode_arguments_keeps_the_last_of_a_repeated_key() {
    let params = decode_arguments("{\"dir\": \"one\", \"dir\": \"two\"}");
    assert_eq!(params.get("dir"), Some(&"two".to_string()));
}

#[test]
fn unknown_tool_is_an_error_that_names_it() {
    let mut context = screen();
    let out = handle_tool_call(&call("does_not_exist", "{}"), &mut context);
    assert_eq!(
        out,
        Dispatch::Finished(ToolCallResult::Error("Function 'does_not_exist' not found".to_string()))
    );
    match out {
        Dispatch::Finished(ToolCallResult::Error(reason)) => assert!(reason.contains("does_not_exist")),
        _ => unreachable!(),
    }
    assert!(!context.guard.is_active());
}

#[test]
fn tools_outside_the_registry_are_unknown() {
    let mut context = terminal();
    for name in ["create_file", "get_url", "extract_structure", "NodeYarnTool", "set_user_command", "", "LIST_FILES"] {
        assert_eq!(
            handle_tool_call(&call(name, "{}"), &mut context),
            Dispatch::Finished(ToolCallResult::Error(format!("Function '{}' not found", name)))
        );
    }
}

#[test]
fn malformed_arguments_reach_the_tool_as_no_arguments() {
    let mut context = terminal();
    for payload in ["[\"dir\", \"src\"]", "garbage", "", "17"] {
        assert_eq!(
            handle_tool_call(&call("list_files", payload), &mut context),
            Dispatch::Perform(
                Effect::ListDir { path: ".".to_string() },
                DispatchState::Running {
                    tool_name: "list_files".to_string(),
                    pending: Pending::ListFiles,
                    holds_guard: false
                }
            ),
            "payload: {:?}",
            payload
        );
        assert_eq!(
            handle_tool_call(&call("show_file", payload), &mut context),
            success(
                "show_file",
                "[Error] Parameter 'filepath' is required and must be a non-empty string."
            )
        );
    }
}

#[test]
fn a_tool_answer_becomes_a_function_message() {
    let mut context = terminal();
    let first = handle_tool_call(&call("list_files", "{\"dir\": \"src\"}"), &mut context);
    let (result, effects) = run_to_end(
        first,
        &mut context,
        vec![Outcome::Lines(vec!["a.txt".to_string(), "b.txt".to_string()])],
    );
    assert_eq!(effects, vec![Effect::ListDir { path: "src".to_string() }]);
    match result {
        ToolCallResult::Success(message) => {
            assert_eq!(message.role, ChatCompletionMessageRole::Function);
            assert_eq!(message.content.as_deref(), Some("a.txt\nb.txt"));
            assert_eq!(message.name.as_deref(), Some("list_files"));
            assert_eq!(message.tool_call_id.as_deref(), Some("list_files"));
            assert_eq!(message.function_call, None);
            assert_eq!(message.tool_calls, None);
        }
        _ => panic!("no success"),
    }
}

#[test]
fn numbers_and_booleans_arrive_as_texts() {
    let mut context = terminal();
    assert_eq!(
        handle_tool_call(&call("list_files", "{\"dir\": 7}"), &mut context),
        Dispatch::Perform(
            Effect::ListDir { path: "7".to_string() },
            DispatchState::Running {
                tool_name: "list_files".to_string(),
                pending: Pending::ListFiles,
                holds_guard: false
            }
        )
    );
    assert_eq!(
        handle_tool_call(&call("show_file", "{\"filepath\": true}"), &mut context),
        Dispatch::Perform(
            Effect::ReadFile { path: "true".to_string() },
            DispatchState::Running {
                tool_name: "show_file".to_string(),
                pending: Pending::ShowFile,
                holds_guard: false
            }
        )
    );
}

#[test]
fn at_the_screen_the_shell_command_is_put_before_the_person() {
    let mut context = screen();
    assert_eq!(
        handle_tool_call(&call("run_shell_command", "{\"command\": \"rm -rf build\"}"), &mut context),
        Dispatch::Perform(
            Effect::Confirm {
                question: "Accept running the following shell command?\nrm -rf build".to_string()
            },
            DispatchState::Confirming {
                tool_name: "run_shell_command".to_string(),
                command: "rm -rf build".to_string()
            }
        )
    );
    assert_eq!(
        handle_tool_call(&call("run_shell_command", "oops"), &mut context),
        Dispatch::Perform(
            Effect::Confirm { question: "Accept running the following shell command?\n".to_string() },
            DispatchState::Confirming { tool_name: "run_shell_command".to_string(), command: "".to_string() }
        )
    );
}

#[test]
fn a_no_cancels_and_nothing_is_run() {
    for denial in [Outcome::Answer(false), Outcome::Closed, Outcome::Failed("ui gone".to_string()), Outcome::Done] {
        let mut context = screen();
        let first = handle_tool_call(&call("run_shell_command", "{\"command\": \"rm -rf /\"}"), &mut context);
        let (result, effects) = run_to_end(first, &mut context, vec![denial]);
        assert_eq!(result, ToolCallResult::Cancelled);
        assert_eq!(effects.len(), 1);
        assert!(matches!(effects[0], Effect::Confirm { .. }));
        assert!(!effects.iter().any(|effect| matches!(effect, Effect::Run { .. })));
    }
}

#[test]
fn a_yes_runs_the_command_and_reports_it() {
    let mut context = screen();
    let first = handle_tool_call(&call("run_shell_command", "{\"command\": \"echo hi\"}"), &mut context);
    let (result, effects) = run_to_end(
        first,
        &mut context,
        vec![
            Outcome::Answer(true),
            Outcome::Exited { success: true, stdout: "hi\n".to_string(), stderr: String::new() },
        ],
    );
    assert_eq!(effects.len(), 2);
    assert_eq!(effects[1], shell("echo hi"));
    assert_eq!(
        result,
        ToolCallResult::Success(ChatCompletionMessage::function_result("run_shell_command", "hi\n".to_string()))
    );
}

#[test]
fn on_the_terminal_the_tool_asks_for_itself() {
    let mut context = terminal();
    let first = handle_tool_call(&call("run_shell_command", "{\"command\": \"make\"}"), &mut context);
    let (result, effects) = run_to_end(first, &mut context, vec![Outcome::Text("n\n".to_string())]);
    assert_eq!(
        effects,
        vec![Effect::Prompt { text: "Do you want to run the command 'make'? (y/n): ".to_string() }]
    );
    assert_eq!(
        result,
        ToolCallResult::Success(ChatCompletionMessage::function_result(
            "run_shell_command",
            "Command execution cancelled by user.".to_string()
        ))
    );
    let mut context = terminal();
    let first = handle_tool_call(&call("run_shell_command", "{\"command\": \"make\"}"), &mut context);
    let (result, effects) = run_to_end(
        first,
        &mut context,
        vec![
            Outcome::Text("Yes\n".to_string()),
            Outcome::Exited { success: false, stdout: String::new(), stderr: "no rule".to_string() },
        ],
    );
    assert_eq!(effects[1], shell("make"));
    assert_eq!(
        result,
        ToolCallResult::Success(ChatCompletionMessage::function_result(
            "run_shell_command",
            "[Error] no rule".to_string()
        ))
    );
}

#[test]
fn a_nested_session_raises_the_guard_and_lowers_it_at_the_end() {
    for (outcome, expected) in [
        (Outcome::Text("done".to_string()), "done"),
        (Outcome::Failed("crashed".to_string()), "[Error] crashed"),
        (Outcome::Closed, "[Error] Unexpected outcome"),
    ] {
        let mut context = screen();
        let first = handle_tool_call(&call("subminerve", "{\"prompt\": \"count\"}"), &mut context);
        assert!(context.guard.is_active());
        let state = match first {
            Dispatch::Perform(Effect::SubAgent { prompt }, state) => {
                assert_eq!(prompt, "count");
                state
            }
            _ => panic!("no nested session"),
        };
        assert_eq!(
            state,
            DispatchState::Running {
                tool_name: "subminerve".to_string(),
                pending: Pending::SubAgent,
                holds_guard: true
            }
        );
        assert_eq!(resume_tool_call(state, outcome, &mut context), success("subminerve", expected));
        assert!(!context.guard.is_active());
    }
}

#[test]
fn nesting_is_refused_while_the_guard_is_up() {
    let mut context = screen();
    context.guard.try_enter();
    let out = handle_tool_call(&call("subminerve", "{\"prompt\": \"again\"}"), &mut context);
    assert_eq!(
        out,
        Dispatch::Finished(ToolCallResult::Error(
            "Function 'subminerve' refused: a sub-agent is already running".to_string()
        ))
    );
    assert!(context.guard.is_active());
}

#[test]
fn a_nesting_call_without_prompt_leaves_the_guard_down() {
    let mut context = screen();
    assert_eq!(
        handle_tool_call(&call("subminerve", "{}"), &mut context),
        success("subminerve", "[Error] Parameter 'prompt' is required and must be a non-empty string.")
    );
    assert!(!context.guard.is_active());
}

#[test]
fn a_nested_session_does_not_know_the_nesting_tool() {
    let mut context = SessionContext { is_headless: true, in_sub_agent: true, guard: RecursionGuard::new() };
    context.guard.try_enter();
    assert_eq!(
        handle_tool_call(&call("subminerve", "{\"prompt\": \"deeper\"}"), &mut context),
        Dispatch::Finished(ToolCallResult::Error("Function 'subminerve' not found".to_string()))
    );
    assert!(context.guard.is_active());
    assert!(matches!(
        handle_tool_call(&call("git_status", "{}"), &mut context),
        Dispatch::Perform(Effect::Run { .. }, _)
    ));
}

#[test]
fn ordinary_tools_leave_the_guard_alone() {
    let mut context = terminal();
    context.guard.try_enter();
    let first = handle_tool_call(&call("git_diff", "{}"), &mut context);
    let (result, _) = run_to_end(
        first,
        &mut context,
        vec![Outcome::Exited { success: true, stdout: "diff".to_string(), stderr: String::new() }],
    );
    assert_eq!(
        result,
        ToolCallResult::Success(ChatCompletionMessage::function_result("git_diff", "diff".to_string()))
    );
    assert!(context.guard.is_active());
}

#[test]
fn every_dispatch_ends_within_four_outcomes() {
    let calls = [
        call("search_for_string", "{\"search_string\": \"x\"}"),
        call("list_files", "{}"),
        call("git_status", "{}"),
        call("show_file", "{\"filepath\": \"a\"}"),
        call("replace_content", "{\"filepath\": \"a\", \"old_content\": \"b\", \"new_content\": \"c\"}"),
        call("run_cargo_check", "{}"),
        call("run_shell_command", "{\"command\": \"ls\"}"),
        call("set_whole_file_contents", "{\"filepath\": \"a\", \"content\": \"b\"}"),
        call("subminerve", "{\"prompt\": \"p\"}"),
        call("nope", "{}"),
    ];
    let scripts: Vec<Vec<Outcome>> = vec![
        vec![Outcome::Done, Outcome::Done, Outcome::Done, Outcome::Done],
        vec![
            Outcome::Answer(true),
            Outcome::Text("y".to_string()),
            Outcome::Exited { success: true, stdout: "o".to_string(), stderr: String::new() },
            Outcome::Done,
        ],
        vec![
            Outcome::Text("a b c".to_string()),
            Outcome::Done,
            Outcome::Done,
            Outcome::Done,
        ],
        vec![
            Outcome::Exited { success: true, stdout: "o".to_string(), stderr: String::new() },
            Outcome::Exited { success: true, stdout: "o".to_string(), stderr: String::new() },
            Outcome::Failed("f".to_string()),
            Outcome::Closed,
        ],
    ];
    for headless in [false, true] {
        for tool_call in calls.iter() {
            for script in scripts.iter() {
                let mut context = SessionContext::new(headless);
                let mut stage = handle_tool_call(tool_call, &mut context);
                let mut script: Vec<Outcome> = script.iter().rev().map(copy_of).collect();
                let mut steps = 0;
                let result = loop {
                    match stage {
                        Dispatch::Finished(result) => break result,
                        Dispatch::Perform(_, state) => {
                            steps += 1;
                            stage = resume_tool_call(state, script.pop().unwrap(), &mut context);
                        }
                    }
                };
                assert!(steps <= 4);
                assert!(matches!(
                    result,
                    ToolCallResult::Success(_) | ToolCallResult::Cancelled | ToolCallResult::Error(_)
                ));
                assert!(!context.guard.is_active());
            }
        }
    }
}

fn copy_of(outcome: &Outcome) -> Outcome {
    match outcome {
        Outcome::Done => Outcome::Done,
        Outcome::Text(t) => Outcome::Text(t.clone()),
        Outcome::Lines(l) => Outcome::Lines(l.clone()),
        Outcome::Exited { success, stdout, stderr } => {
            Outcome::Exited { success: *success, stdout: stdout.clone(), stderr: stderr.clone() }
        }
        Outcome::Answer(a) => Outcome::Answer(*a),
        Outcome::Closed => Outcome::Closed,
        Outcome::Missing(m) => Outcome::Missing(m.clone()),
        Outcome::Failed(m) => Outcome::Failed(m.clone()),
        Outcome::Broken(m) => Outcome::Broken(m.clone()),
    }
}

#[test]
fn stage_wraps_answers_and_hands_effects_on() {
    assert_eq!(stage(Step::Reply("out".to_string()), "git_diff", false), success("git_diff", "out"));
    assert_eq!(
        stage(
            Step::Perform(Effect::ReadFile { path: "p".to_string() }, Pending::ShowFile),
            "show_file",
            true
        ),
        Dispatch::Perform(
            Effect::ReadFile { path: "p".to_string() },
            DispatchState::Running {
                tool_name: "show_file".to_string(),
                pending: Pending::ShowFile,
                holds_guard: true
            }
        )
    );
}

#[test]
fn notices_name_the_tool() {
    assert_eq!(running_notice("list_files"), "Running tool: list_files");
    assert_eq!(reading_notice("list_files"), "Reading tool result: list_files");
}

#[test]
fn guard_lets_one_in_at_a_time() {
    let mut guard = RecursionGuard::new();
    assert!(!guard.is_active());
    assert!(guard.try_enter());
    assert!(guard.is_active());
    assert!(!guard.try_enter());
    assert!(guard.is_active());
    guard.leave();
    assert!(!guard.is_active());
    guard.leave();
    assert!(!guard.is_active());
    assert!(guard.try_enter());
}
