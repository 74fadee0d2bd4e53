//! The tool dispatcher: from an invocation that the model wrote to its
//! result, by way of the effects that the tool asks for.

use crate::chat::{
    function_message, ChatCompletionFunctionCall, ChatCompletionMessage, FunctionCallView,
    ToolCallResult, ToolCallResultView,
};
use crate::guard::RecursionGuard;
use crate::json::{coerce, coerced, json_object_entries, parse_object, JsonValue, JsonValueView};
use crate::text::{concat2, concat3};
use crate::tools::params::{optional_text, ToolParams};
use crate::tools::registry::{
    effects_left, find_tool, get_tool_registry, lemma_named_is_sound, named, registry_for, resume,
    resumed, ToolKind,
};
use crate::tools::run_shell_command_tool::RunShellCommandTool;
use crate::tools::step::{
    Effect, EffectView, Outcome, OutcomeView, Pending, PendingView, Step, StepView,
};
use crate::tools::ExecuteCommandSettings;
use vstd::prelude::*;

verus! {

/// What a session is and in what state its guard is.
#[derive(Debug)]
pub struct SessionContext {
    /// Whether the session runs on the terminal, without the screen.
    pub is_headless: bool,
    /// Whether the session is a nested one.
    pub in_sub_agent: bool,
    /// The guard of the outermost session.
    pub guard: RecursionGuard,
}

/// The mathematical value of a [`SessionContext`].
pub struct ContextView {
    pub is_headless: bool,
    pub in_sub_agent: bool,
    pub guard_active: bool,
}

impl View for SessionContext {
    type V = ContextView;

    open spec fn view(&self) -> ContextView {
        ContextView {
            is_headless: self.is_headless,
            in_sub_agent: self.in_sub_agent,
            guard_active: self.guard@,
        }
    }
}

impl SessionContext {
    /// The context of an outermost session, with its guard down.
    pub fn new(is_headless: bool) -> (out: Self)
        ensures
            out@ == (ContextView { is_headless, in_sub_agent: false, guard_active: false }),
    {
        SessionContext { is_headless, in_sub_agent: false, guard: RecursionGuard::new() }
    }
}

/// What a dispatch that has asked for an effect waits for.
#[derive(Debug, PartialEq, Eq)]
pub enum DispatchState {
    /// The answer to whether `command` may run.
    Confirming { tool_name: String, command: String },
    /// The outcome of an effect of the tool; `holds_guard` tells whether the
    /// guard is up on behalf of this invocation.
    Running { tool_name: String, pending: Pending, holds_guard: bool },
}

/// The mathematical value of a [`DispatchState`].
pub enum DispatchStateView {
    Confirming { tool_name: Seq<char>, command: Seq<char> },
    Running { tool_name: Seq<char>, pending: PendingView, holds_guard: bool },
}

impl View for DispatchState {
    type V = DispatchStateView;

    open spec fn view(&self) -> DispatchStateView {
        match self {
            DispatchState::Confirming { tool_name, command } => DispatchStateView::Confirming {
                tool_name: tool_name@,
                command: command@,
            },
            DispatchState::Running { tool_name, pending, holds_guard } => {
                DispatchStateView::Running {
                    tool_name: tool_name@,
                    pending: pending@,
                    holds_guard: *holds_guard,
                }
            },
        }
    }
}

/// Where a dispatch stands: at its result, or at an effect to perform.
#[derive(Debug, PartialEq, Eq)]
pub enum Dispatch {
    Finished(ToolCallResult),
    Perform(Effect, DispatchState),
}

/// The mathematical value of a [`Dispatch`].
pub enum DispatchView {
    Finished(ToolCallResultView),
    Perform(EffectView, DispatchStateView),
}

impl View for Dispatch {
    type V = DispatchView;

    open spec fn view(&self) -> DispatchView {
        match self {
            Dispatch::Finished(result) => DispatchView::Finished(result@),
            Dispatch::Perform(effect, state) => DispatchView::Perform(effect@, state@),
        }
    }
}

/// The arguments that a list of JSON entries gives: each value as the text
/// that a tool receives for it.
pub open spec fn coerced_entries(entries: Seq<(Seq<char>, JsonValueView)>) -> Seq<
    (Seq<char>, Seq<char>),
> {
    Seq::new(entries.len(), |i: int| (entries[i].0, coerced(entries[i].1)))
}

/// The arguments that a payload gives: those of its JSON object, and none
/// where the payload is not the text of a JSON object.
pub open spec fn decoded_arguments(payload: Seq<char>) -> Seq<(Seq<char>, Seq<char>)> {
    match json_object_entries(payload) {
        Some(entries) => coerced_entries(entries),
        None => Seq::empty(),
    }
}

/// The reason given for an unknown tool.
pub open spec fn not_found(tool_name: Seq<char>) -> Seq<char> {
    "Function '"@ + tool_name + "' not found"@
}

/// The reason given to a nested session that tries to start another.
pub open spec fn recursion_refused(tool_name: Seq<char>) -> Seq<char> {
    "Function '"@ + tool_name + "' refused: a sub-agent is already running"@
}

/// The question put at the screen before `command` runs.
pub open spec fn confirmation_question(command: Seq<char>) -> Seq<char> {
    "Accept running the following shell command?\n"@ + command
}

/// A step of the tool `tool_name` as a stage of its dispatch: an answer
/// ends the dispatch with the message that carries it, an effect is handed
/// on.
pub open spec fn staged(step: StepView, tool_name: Seq<char>, holds_guard: bool) -> DispatchView {
    match step {
        StepView::Reply(answer) => DispatchView::Finished(
            ToolCallResultView::Success(function_message(tool_name, answer)),
        ),
        StepView::Perform(effect, pending) => DispatchView::Perform(
            effect,
            DispatchStateView::Running { tool_name, pending, holds_guard },
        ),
    }
}

/// Whether the guard stays up on behalf of a dispatch that stands at
/// `stage`.
pub open spec fn keeps_guard(stage: DispatchView) -> bool {
    stage matches DispatchView::Perform(
        effect,
        DispatchStateView::Running { tool_name, pending, holds_guard },
    ) && holds_guard
}

/// The first stage of the dispatch of `call` in a session.
///
/// An unknown name ends it with an error that names the tool. A tool that
/// can destroy something is, at the screen, put before the person first. A
/// tool that starts a nested session is refused while the guard is up. Any
/// other invocation begins the tool on the arguments decoded from the
/// payload.
pub open spec fn dispatched(call: FunctionCallView, context: ContextView) -> DispatchView {
    match named(registry_for(context.in_sub_agent), call.name) {
        None => DispatchView::Finished(ToolCallResultView::Error(not_found(call.name))),
        Some(kind) => {
            let args = decoded_arguments(call.arguments);
            if kind.destructive() && !context.is_headless {
                let command = optional_text(args, "command"@, ""@);
                DispatchView::Perform(
                    EffectView::Confirm { question: confirmation_question(command) },
                    DispatchStateView::Confirming { tool_name: call.name, command },
                )
            } else if kind.nests() && context.guard_active {
                DispatchView::Finished(ToolCallResultView::Error(recursion_refused(call.name)))
            } else {
                staged(kind.spec_run(args, context.is_headless), call.name, kind.nests())
            }
        },
    }
}

/// The stage that follows `outcome` for a dispatch that waits with `state`.
///
/// The question at the screen lets the command run only on a yes; a no, a
/// screen that is gone and anything else cancel the invocation. An outcome
/// of the tool's own effect takes the tool one step further.
pub open spec fn continued(
    state: DispatchStateView,
    outcome: OutcomeView,
    is_headless: bool,
) -> DispatchView {
    match state {
        DispatchStateView::Confirming { tool_name, command } => match outcome {
            OutcomeView::Answer(yes) => if yes {
                staged(RunShellCommandTool::executed(command, is_headless), tool_name, false)
            } else {
                DispatchView::Finished(ToolCallResultView::Cancelled)
            },
            _ => DispatchView::Finished(ToolCallResultView::Cancelled),
        },
        DispatchStateView::Running { tool_name, pending, holds_guard } => staged(
            resumed(pending, outcome),
            tool_name,
            holds_guard,
        ),
    }
}

/// Whether a dispatch that waits with `state` holds the guard.
pub open spec fn holds_guard(state: DispatchStateView) -> bool {
    state matches DispatchStateView::Running { tool_name, pending, holds_guard } && holds_guard
}

/// The guard once a dispatch has begun and stands at `stage`: up where it
/// was up before, or where the dispatch has started a nested session.
pub open spec fn guard_after_begin(before: bool, stage: DispatchView) -> bool {
    before || keeps_guard(stage)
}

/// The guard once a dispatch that waited with `state` stands at `stage`: a
/// dispatch that holds the guard keeps it up until it finishes, any other
/// leaves it alone.
pub open spec fn guard_after_resume(
    before: bool,
    state: DispatchStateView,
    stage: DispatchView,
) -> bool {
    if holds_guard(state) {
        keeps_guard(stage)
    } else {
        before
    }
}

/// The arguments that a list of JSON entries gives.
pub fn arguments_from_entries(entries: &Vec<(String, JsonValue)>) -> (out: ToolParams)
    ensures
        out@ == coerced_entries(entries.deep_view()),
{
    let mut args: Vec<(String, String)> = Vec::new();
    let mut i: usize = 0;
    while i < entries.len()
        invariant
            i <= entries.len(),
            args.len() == i,
            forall|j: int|
                0 <= j < i ==> args[j].deep_view() == coerced_entries(entries.deep_view())[j],
        decreases entries.len() - i,
    {
        args.push((entries[i].0.clone(), coerce(&entries[i].1)));
        i += 1;
    }
    proof {
        assert(args.deep_view() =~= coerced_entries(entries.deep_view()));
    }
    ToolParams::new(args)
}

/// Decodes the argument payload of an invocation. A payload that is not the
/// text of a JSON object gives no arguments, so that the tool itself reports
/// what it misses.
pub fn decode_arguments(payload: &str) -> (out: ToolParams)
    ensures
        out@ == decoded_arguments(payload@),
{
    match parse_object(payload) {
        Some(entries) => arguments_from_entries(&entries),
        None => {
            let args: Vec<(String, String)> = Vec::new();
            ToolParams::new(args)
        },
    }
}

/// A step of the tool `tool_name` as a stage of its dispatch.
pub fn stage(step: Step, tool_name: &str, holds_guard: bool) -> (out: Dispatch)
    ensures
        out@ == staged(step@, tool_name@, holds_guard),
{
    match step {
        Step::Reply(answer) => Dispatch::Finished(
            ToolCallResult::Success(ChatCompletionMessage::function_result(tool_name, answer)),
        ),
        Step::Perform(effect, pending) => Dispatch::Perform(
            effect,
            DispatchState::Running { tool_name: tool_name.to_owned(), pending, holds_guard },
        ),
    }
}

/// Begins the dispatch of an invocation.
///
/// The guard is up afterwards exactly when it was up before or the
/// invocation has started a nested session that is still to run.
pub fn handle_tool_call(tool_call: &ChatCompletionFunctionCall, context: &mut SessionContext) -> (out:
    Dispatch)
    ensures
        out@ == dispatched(tool_call@, old(context)@),
        final(context)@ == (ContextView {
            guard_active: guard_after_begin(old(context)@.guard_active, out@),
            ..old(context)@
        }),
{
    let registry = get_tool_registry(context.in_sub_agent);
    let tool_name = tool_call.name.as_str();
    let kind = match find_tool(&registry, tool_name) {
        Some(kind) => kind,
        None => {
            return Dispatch::Finished(
                ToolCallResult::Error(concat3("Function '", tool_name, "' not found")),
            );
        },
    };
    let params = decode_arguments(tool_call.arguments.as_str());
    if kind.is_destructive() && !context.is_headless {
        let command = params.get_string_optional("command", "");
        let question = concat2("Accept running the following shell command?\n", command.as_str());
        return Dispatch::Perform(
            Effect::Confirm { question },
            DispatchState::Confirming { tool_name: tool_name.to_owned(), command },
        );
    }
    let nests = kind.spawns_sub_agent();
    if nests && context.guard.is_active() {
        return Dispatch::Finished(
            ToolCallResult::Error(
                concat3("Function '", tool_name, "' refused: a sub-agent is already running"),
            ),
        );
    }
    let settings = ExecuteCommandSettings { is_headless: context.is_headless };
    let out = stage(kind.run(&params, settings), tool_name, nests);
    if nests {
        match &out {
            Dispatch::Perform(effect, state) => {
                context.guard.try_enter();
            },
            Dispatch::Finished(result) => {},
        }
    }
    out
}

/// Takes a dispatch one stage further, now that the effect it asked for has
/// ended in `outcome`.
///
/// A dispatch that holds the guard lowers it when it finishes, whatever its
/// result. A dispatch that does not hold it leaves it alone.
pub fn resume_tool_call(state: DispatchState, outcome: Outcome, context: &mut SessionContext) -> (out:
    Dispatch)
    ensures
        out@ == continued(state@, outcome@, old(context)@.is_headless),
        final(context)@ == (ContextView {
            guard_active: guard_after_resume(old(context)@.guard_active, state@, out@),
            ..old(context)@
        }),
        out@ matches DispatchView::Perform(
            effect,
            DispatchStateView::Running { tool_name, pending, holds_guard },
        ) ==> stages_left(out@) < stages_left(DispatchView::Perform(effect, state@)),
{
    match state {
        DispatchState::Confirming { tool_name, command } => match outcome {
            Outcome::Answer(yes) => {
                if yes {
                    let settings = ExecuteCommandSettings { is_headless: context.is_headless };
                    stage(
                        RunShellCommandTool::execute_command(command.as_str(), Some(settings)),
                        tool_name.as_str(),
                        false,
                    )
                } else {
                    Dispatch::Finished(ToolCallResult::Cancelled)
                }
            },
            _ => Dispatch::Finished(ToolCallResult::Cancelled),
        },
        DispatchState::Running { tool_name, pending, holds_guard } => {
            let out = stage(resume(pending, outcome), tool_name.as_str(), holds_guard);
            if holds_guard {
                match &out {
                    Dispatch::Perform(effect, state) => {
                        context.guard.try_enter();
                    },
                    Dispatch::Finished(result) => {
                        context.guard.leave();
                    },
                }
            }
            out
        },
    }
}

/// The most effects that a dispatch still asks for, the one it stands at
/// included.
pub open spec fn stages_left(stage: DispatchView) -> nat {
    match stage {
        DispatchView::Finished(result) => 0,
        DispatchView::Perform(effect, state) => match state {
            DispatchStateView::Confirming { tool_name, command } => 4,
            DispatchStateView::Running { tool_name, pending, holds_guard } => effects_left(pending),
        },
    }
}

/// The note shown while a tool runs.
pub fn running_notice(tool_name: &str) -> (out: String)
    ensures
        out@ == "Running tool: "@ + tool_name@,
{
    concat2("Running tool: ", tool_name)
}

/// The note shown once a tool has answered.
pub fn reading_notice(tool_name: &str) -> (out: String)
    ensures
        out@ == "Reading tool result: "@ + tool_name@,
{
    concat2("Reading tool result: ", tool_name)
}

/// The result that a dispatch reaches from `stage` when the effects it asks
/// for end in `outcomes`, one after the other; `None` where the outcomes run
/// out first.
pub open spec fn result_after(
    stage: DispatchView,
    outcomes: Seq<OutcomeView>,
    is_headless: bool,
) -> Option<ToolCallResultView>
    decreases outcomes.len(),
{
    match stage {
        DispatchView::Finished(result) => Some(result),
        DispatchView::Perform(effect, state) => if outcomes.len() == 0 {
            None
        } else {
            result_after(
                continued(state, outcomes.first(), is_headless),
                outcomes.drop_first(),
                is_headless,
            )
        },
    }
}

/// Every stage of a dispatch asks for fewer effects than the stage before.
pub proof fn lemma_stages_decrease(
    effect: EffectView,
    state: DispatchStateView,
    outcome: OutcomeView,
    is_headless: bool,
)
    ensures
        stages_left(continued(state, outcome, is_headless)) < stages_left(
            DispatchView::Perform(effect, state),
        ),
{
}

/// A dispatch that stands at a stage reaches a result once it has been
/// given as many outcomes as the stage still asks for.
pub proof fn lemma_stage_ends(stage: DispatchView, outcomes: Seq<OutcomeView>, is_headless: bool)
    requires
        outcomes.len() >= stages_left(stage),
    ensures
        result_after(stage, outcomes, is_headless) is Some,
    decreases outcomes.len(),
{
    match stage {
        DispatchView::Finished(result) => {},
        DispatchView::Perform(effect, state) => {
            lemma_stages_decrease(effect, state, outcomes.first(), is_headless);
            lemma_stage_ends(
                continued(state, outcomes.first(), is_headless),
                outcomes.drop_first(),
                is_headless,
            );
        },
    }
}

/// Every dispatch ends: whatever the invocation and the session, and
/// however the effects end, four outcomes lead to a result, which is a
/// success, a cancellation or an error.
pub proof fn lemma_dispatch_is_total(
    call: FunctionCallView,
    context: ContextView,
    outcomes: Seq<OutcomeView>,
)
    requires
        outcomes.len() >= 4,
    ensures
        result_after(dispatched(call, context), outcomes, context.is_headless) is Some,
{
    lemma_stage_ends(dispatched(call, context), outcomes, context.is_headless);
}

/// An invocation of a tool that the registry does not hold ends at once
/// with an error, and the error names the tool.
pub proof fn lemma_unknown_tool_is_an_error(call: FunctionCallView, context: ContextView)
    requires
        named(registry_for(context.in_sub_agent), call.name) is None,
    ensures
        dispatched(call, context) == DispatchView::Finished(
            ToolCallResultView::Error(not_found(call.name)),
        ),
        crate::text::contains(not_found(call.name), call.name),
{
    reveal_strlit("Function '");
    let reason = not_found(call.name);
    assert(reason.subrange(10, 10 + call.name.len() as int) =~= call.name);
    assert(crate::text::occurs_at(reason, call.name, 10));
}

/// A payload that is not the text of a JSON object does not stop the
/// dispatch: the tool is begun on no arguments.
pub proof fn lemma_malformed_payload_gives_no_arguments(
    call: FunctionCallView,
    context: ContextView,
    kind: ToolKind,
)
    requires
        json_object_entries(call.arguments) is None,
        named(registry_for(context.in_sub_agent), call.name) == Some(kind),
        !kind.destructive() || context.is_headless,
        !kind.nests() || !context.guard_active,
    ensures
        decoded_arguments(call.arguments) == Seq::<(Seq<char>, Seq<char>)>::empty(),
        dispatched(call, context) == staged(
            kind.spec_run(Seq::empty(), context.is_headless),
            call.name,
            kind.nests(),
        ),
{
}

/// While the guard is up, an invocation of a tool that starts a nested
/// session ends at once with an error: no effect is asked for, so no nested
/// session starts.
pub proof fn lemma_guard_refuses_nesting(call: FunctionCallView, context: ContextView, kind: ToolKind)
    requires
        named(registry_for(context.in_sub_agent), call.name) == Some(kind),
        kind.nests(),
        context.guard_active,
    ensures
        dispatched(call, context) == DispatchView::Finished(
            ToolCallResultView::Error(recursion_refused(call.name)),
        ),
{
}

/// The guard at the end of a dispatch that stands at `stage` with the guard
/// as given, when the effects it asks for end in `outcomes`.
pub open spec fn guard_at_end(
    stage: DispatchView,
    guard: bool,
    outcomes: Seq<OutcomeView>,
    is_headless: bool,
) -> bool
    decreases outcomes.len(),
{
    match stage {
        DispatchView::Finished(result) => guard,
        DispatchView::Perform(effect, state) => if outcomes.len() == 0 {
            guard
        } else {
            let next = continued(state, outcomes.first(), is_headless);
            guard_at_end(
                next,
                guard_after_resume(guard, state, next),
                outcomes.drop_first(),
                is_headless,
            )
        },
    }
}

/// A dispatch that holds the guard has lowered it by the time it ends,
/// however the effects end.
pub proof fn lemma_held_guard_is_released(
    stage: DispatchView,
    guard: bool,
    outcomes: Seq<OutcomeView>,
    is_headless: bool,
)
    requires
        stage is Finished ==> !guard,
        stage matches DispatchView::Perform(effect, state) ==> holds_guard(state),
        outcomes.len() >= stages_left(stage),
    ensures
        !guard_at_end(stage, guard, outcomes, is_headless),
    decreases outcomes.len(),
{
    match stage {
        DispatchView::Finished(result) => {},
        DispatchView::Perform(effect, state) => {
            let next = continued(state, outcomes.first(), is_headless);
            lemma_stages_decrease(effect, state, outcomes.first(), is_headless);
            lemma_held_guard_is_released(
                next,
                guard_after_resume(guard, state, next),
                outcomes.drop_first(),
                is_headless,
            );
        },
    }
}

/// An invocation of a tool that starts a nested session, begun while the
/// guard is down, leaves the guard down when it returns: whether the nested
/// session answered, failed or never started.
pub proof fn lemma_guard_is_down_after_nesting(
    call: FunctionCallView,
    context: ContextView,
    kind: ToolKind,
    outcomes: Seq<OutcomeView>,
)
    requires
        named(registry_for(context.in_sub_agent), call.name) == Some(kind),
        kind.nests(),
        !context.guard_active,
        outcomes.len() >= 4,
    ensures
        !guard_at_end(
            dispatched(call, context),
            guard_after_begin(context.guard_active, dispatched(call, context)),
            outcomes,
            context.is_headless,
        ),
{
    let stage = dispatched(call, context);
    lemma_held_guard_is_released(
        stage,
        guard_after_begin(context.guard_active, stage),
        outcomes,
        context.is_headless,
    );
}

/// An invocation of a tool that starts no nested session never moves the
/// guard.
pub proof fn lemma_ordinary_tools_leave_the_guard(
    call: FunctionCallView,
    context: ContextView,
    outcome: OutcomeView,
)
    requires
        named(registry_for(context.in_sub_agent), call.name) matches Some(kind) ==> !kind.nests(),
    ensures
        guard_after_begin(context.guard_active, dispatched(call, context)) == context.guard_active,
        dispatched(call, context) matches DispatchView::Perform(effect, state) ==> !holds_guard(
            state,
        ) && !keeps_guard(continued(state, outcome, context.is_headless)),
{
}

/// Whether a stage asks for a nested session.
pub open spec fn asks_for_nesting(stage: DispatchView) -> bool {
    stage matches DispatchView::Perform(effect, state) && effect is SubAgent
}

/// A nested session never starts another: no invocation that it
/// dispatches asks for a nested session, at its first stage or at any
/// later one, and none moves the guard.
pub proof fn lemma_nested_sessions_never_nest(
    call: FunctionCallView,
    context: ContextView,
    state: DispatchStateView,
    outcome: OutcomeView,
)
    requires
        context.in_sub_agent,
    ensures
        !asks_for_nesting(dispatched(call, context)),
        !asks_for_nesting(continued(state, outcome, context.is_headless)),
        guard_after_begin(context.guard_active, dispatched(call, context)) == context.guard_active,
{
    lemma_named_is_sound(registry_for(true), call.name);
}

/// A dispatch that succeeds ends with a message of the tool: its role is
/// that of a tool result, it carries the tool's name, and its content is
/// what the tool answered.
pub proof fn lemma_success_is_a_tool_message(step: StepView, tool_name: Seq<char>, held: bool)
    ensures
        staged(step, tool_name, held) matches DispatchView::Finished(result) ==> {
            &&& result matches ToolCallResultView::Success(message)
            &&& message.role == crate::chat::ChatCompletionMessageRole::Function
            &&& message.name == Some(tool_name)
            &&& message.tool_call_id == Some(tool_name)
            &&& step matches StepView::Reply(answer) && message.content == Some(answer)
        },
{
}

/// At the screen the shell command is put before the person first, and
/// unless the answer is a yes the invocation is cancelled: the dispatch ends
/// there and has asked for no effect but the question.
pub proof fn lemma_denial_cancels(call: FunctionCallView, context: ContextView, answer: OutcomeView)
    requires
        named(registry_for(context.in_sub_agent), call.name) == Some(ToolKind::RunShellCommand),
        !context.is_headless,
        answer != OutcomeView::Answer(true),
    ensures
        dispatched(call, context) matches DispatchView::Perform(effect, state) && effect
            is Confirm && continued(state, answer, context.is_headless) == DispatchView::Finished(
            ToolCallResultView::Cancelled,
        ),
{
}

} // verus!
