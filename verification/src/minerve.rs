//! The orchestrator: the loop that asks the model, runs the tool the model
//! asks for, and asks again, as a machine that takes one event at a time.

use crate::chat::{
    assistant_turn, plain_message, ChatCompletionFunctionCall, ChatCompletionFunctionDefinition,
    ChatCompletionMessage, ChatCompletionMessageRole, ChatCompletionRequest,
    ChatCompletionResponse, FunctionCallView, FunctionDefinitionView, MessageView, RequestView,
    ToolCallResult, ToolCallResultView, Usage,
};
use crate::compaction::{compacted, compacted_copy, HIST_CUTOFF};
use crate::dispatch::{
    continued, dispatched, guard_after_begin, guard_after_resume, handle_tool_call,
    resume_tool_call, ContextView, Dispatch, DispatchState, SessionContext,
};
use crate::guard::RecursionGuard;
use crate::text::{concat2, join, joined};
use crate::token_counter::{accumulated, clamped, TokenCounter};
use crate::tools::registry::{get_tool_registry, registry_for, ToolKind};
use crate::tools::schema::schema_of;
use crate::tools::step::Outcome;
use vstd::prelude::*;

verus! {

/// The model that is asked.
pub const MODEL_NAME: &'static str = "gpt-4o";

/// Where the prompts entered so far are kept, below the home directory.
pub const HISTORY_PATH: &'static str = ".minerve/history.json";

/// The service that is asked where no other is given.
pub const DEFAULT_BASE_URL: &'static str = "https://api.openai.com/v1";

/// The instructions that open every session.
pub open spec fn system_prompt() -> Seq<char> {
    "You are Minerve, a coding assistant that works in the user's terminal, inside the user's project. Use the tools you are given to look at the project before you answer: list files, show files, search, and inspect the state of the repository. Change files only when the user asks for a change, replace whole blocks of code rather than fragments, and check your work with the tools at hand. Before you run a shell command, say what it does. Keep your answers short and to the point."@
}

/// The instructions that open every session.
pub fn get_system_prompt() -> (out: String)
    ensures
        out@ == system_prompt(),
{
    "You are Minerve, a coding assistant that works in the user's terminal, inside the user's project. Use the tools you are given to look at the project before you answer: list files, show files, search, and inspect the state of the repository. Change files only when the user asks for a change, replace whole blocks of code rather than fragments, and check your work with the tools at hand. Before you run a shell command, say what it does. Keep your answers short and to the point.".to_owned()
}

/// Where the loop stands.
#[derive(Debug, Clone, Copy, PartialEq, Eq, Structural)]
pub enum AgentState {
    /// Nothing is under way: before the first input, and after a run.
    Terminal,
    /// A request is to be sent, or its answer is awaited.
    AwaitingModel,
    /// The model has asked for a tool, which is to be run.
    DispatchingTool,
}

/// What came back from the service.
#[derive(Debug, PartialEq, Eq)]
pub enum ModelReply {
    /// The message of the model, with the usage reported.
    Answer { message: ChatCompletionMessage, usage: Option<Usage> },
    /// No message: the request failed on the way. The text says why.
    TransportError(String),
    /// No message: the response could not be read as one. The text says
    /// why.
    ProtocolError(String),
}

/// The mathematical value of a [`ModelReply`].
pub enum ModelReplyView {
    Answer { message: MessageView, usage: Option<Usage> },
    TransportError(Seq<char>),
    ProtocolError(Seq<char>),
}

impl View for ModelReply {
    type V = ModelReplyView;

    open spec fn view(&self) -> ModelReplyView {
        match self {
            ModelReply::Answer { message, usage } => ModelReplyView::Answer {
                message: message@,
                usage: *usage,
            },
            ModelReply::TransportError(reason) => ModelReplyView::TransportError(reason@),
            ModelReply::ProtocolError(reason) => ModelReplyView::ProtocolError(reason@),
        }
    }
}

/// The reply that stands for a response without choices.
pub open spec fn no_choice() -> Seq<char> {
    "the response holds no message"@
}

/// The reply that a response stands for: the message of its first choice.
pub open spec fn reply_of(choices: Seq<MessageView>, usage: Option<Usage>) -> ModelReplyView {
    if choices.len() == 0 {
        ModelReplyView::ProtocolError(no_choice())
    } else {
        ModelReplyView::Answer { message: choices[0], usage }
    }
}

/// The messages of the choices of a response.
pub open spec fn choice_messages(response: ChatCompletionResponse) -> Seq<MessageView> {
    Seq::new(response.choices.len() as nat, |i: int| response.choices[i].message@)
}

/// Reads a response: its first choice is the reply, and a response without
/// choices cannot be read as one.
pub fn reply_from_response(response: ChatCompletionResponse) -> (out: ModelReply)
    ensures
        out@ == reply_of(choice_messages(response), response.usage),
{
    let ChatCompletionResponse { choices, usage } = response;
    let mut choices = choices;
    if choices.len() == 0 {
        ModelReply::ProtocolError("the response holds no message".to_owned())
    } else {
        let first = choices.swap_remove(0);
        ModelReply::Answer { message: first.message, usage }
    }
}

/// The orchestrator of one session.
#[derive(Debug)]
pub struct Minerve {
    messages: Vec<ChatCompletionMessage>,
    api_key: String,
    base_url: String,
    request_in_flight: bool,
    token_counter: TokenCounter,
    context: SessionContext,
    state: AgentState,
    pending_call: Option<ChatCompletionFunctionCall>,
    run_start: usize,
    round_trips: usize,
    max_round_trips: Option<usize>,
    history_cutoff: usize,
}

/// The mathematical value of a [`Minerve`].
pub struct MinerveView {
    /// The message store.
    pub messages: Seq<MessageView>,
    pub api_key: Seq<char>,
    pub base_url: Seq<char>,
    /// Whether a run is under way.
    pub request_in_flight: bool,
    pub prompt_tokens: nat,
    pub completion_tokens: nat,
    pub context: ContextView,
    pub state: AgentState,
    /// The invocation that is to be dispatched.
    pub pending_call: Option<FunctionCallView>,
    /// The length of the store when the current run began, its input
    /// included.
    pub run_start: nat,
    /// The replies received in the current run.
    pub round_trips: nat,
    /// The number of replies after which a run asks no more, if there is
    /// such a number.
    pub max_round_trips: Option<nat>,
    /// The number of most recent messages that go out unredacted.
    pub history_cutoff: nat,
}

/// The store of a session begins with the system message.
pub open spec fn opens_with_system(messages: Seq<MessageView>) -> bool {
    messages.len() > 0 && messages[0].role == ChatCompletionMessageRole::System
}

/// What holds of every session: its store begins with the system message,
/// the current run began inside the store, and an invocation is pending
/// exactly while a tool is to be dispatched.
pub open spec fn well_formed(session: MinerveView) -> bool {
    &&& opens_with_system(session.messages)
    &&& session.run_start <= session.messages.len()
    &&& session.pending_call is Some <==> session.state == AgentState::DispatchingTool
}

/// A new session.
pub open spec fn opened(api_key: Seq<char>, base_url: Seq<char>, context: ContextView) -> MinerveView {
    MinerveView {
        messages: seq![plain_message(ChatCompletionMessageRole::System, system_prompt())],
        api_key,
        base_url,
        request_in_flight: false,
        prompt_tokens: 0,
        completion_tokens: 0,
        context,
        state: AgentState::Terminal,
        pending_call: None,
        run_start: 1,
        round_trips: 0,
        max_round_trips: None,
        history_cutoff: HIST_CUTOFF as nat,
    }
}

/// The session after the user's input: the input is stored and a run
/// begins.
pub open spec fn submitted(session: MinerveView, input: Seq<char>) -> MinerveView {
    MinerveView {
        messages: session.messages.push(plain_message(ChatCompletionMessageRole::User, input)),
        request_in_flight: true,
        state: AgentState::AwaitingModel,
        pending_call: None,
        run_start: session.messages.len() + 1,
        round_trips: 0,
        ..session
    }
}

/// The text of the message that reports a failed request.
pub open spec fn request_error(reason: Seq<char>) -> Seq<char> {
    "Request Error: "@ + reason
}

/// The text of the message that reports a failed tool invocation.
pub open spec fn tool_error(reason: Seq<char>) -> Seq<char> {
    "Error occurred in tool call: "@ + reason
}

/// A count of replies one higher, held at `usize::MAX`.
pub open spec fn one_more(count: nat) -> nat {
    if count >= usize::MAX {
        count
    } else {
        count + 1
    }
}

/// The counters after the usage of a reply.
pub open spec fn counted(total: nat, usage: Option<Usage>, prompt: bool) -> nat {
    match usage {
        Some(u) => accumulated(
            total,
            clamped(
                if prompt {
                    u.prompt_tokens
                } else {
                    u.completion_tokens
                },
            ),
        ),
        None => total,
    }
}

/// The session after a request that brought no message: the failure is
/// stored as a message of the assistant and the run ends.
pub open spec fn failed(session: MinerveView, reason: Seq<char>) -> MinerveView {
    MinerveView {
        messages: session.messages.push(
            plain_message(ChatCompletionMessageRole::Assistant, request_error(reason)),
        ),
        request_in_flight: false,
        state: AgentState::Terminal,
        round_trips: one_more(session.round_trips),
        ..session
    }
}

/// The session after a reply of the service.
///
/// A reply that is not awaited changes nothing. A request that failed on
/// the way and a response that could not be read end the run alike, with
/// the failure stored. A message is stored as the assistant's turn; with a
/// tool invocation the tool is to be dispatched, without one the run ends.
pub open spec fn received(session: MinerveView, reply: ModelReplyView) -> MinerveView {
    if session.state != AgentState::AwaitingModel {
        session
    } else {
        match reply {
            ModelReplyView::TransportError(reason) => failed(session, reason),
            ModelReplyView::ProtocolError(reason) => failed(session, reason),
            ModelReplyView::Answer { message, usage } => MinerveView {
                messages: session.messages.push(assistant_turn(message)),
                prompt_tokens: counted(session.prompt_tokens, usage, true),
                completion_tokens: counted(session.completion_tokens, usage, false),
                request_in_flight: message.function_call is Some,
                state: if message.function_call is Some {
                    AgentState::DispatchingTool
                } else {
                    AgentState::Terminal
                },
                pending_call: message.function_call,
                round_trips: one_more(session.round_trips),
                ..session
            },
        }
    }
}

/// Whether a run has received as many replies as it may.
pub open spec fn exhausted(session: MinerveView) -> bool {
    session.max_round_trips matches Some(limit) && session.round_trips >= limit
}

/// The session after the result of the tool invocation.
///
/// A result that is not awaited changes nothing. A success is stored and
/// the model is asked again, unless the run has received as many replies as
/// it may. A cancellation ends the run and stores nothing. An error is
/// stored as a message of the assistant and ends the run.
pub open spec fn completed(session: MinerveView, result: ToolCallResultView) -> MinerveView {
    if session.state != AgentState::DispatchingTool {
        session
    } else {
        match result {
            ToolCallResultView::Success(message) => MinerveView {
                messages: session.messages.push(message),
                request_in_flight: !exhausted(session),
                state: if exhausted(session) {
                    AgentState::Terminal
                } else {
                    AgentState::AwaitingModel
                },
                pending_call: None,
                ..session
            },
            ToolCallResultView::Cancelled => MinerveView {
                request_in_flight: false,
                state: AgentState::Terminal,
                pending_call: None,
                ..session
            },
            ToolCallResultView::Error(reason) => MinerveView {
                messages: session.messages.push(
                    plain_message(ChatCompletionMessageRole::Assistant, tool_error(reason)),
                ),
                request_in_flight: false,
                state: AgentState::Terminal,
                pending_call: None,
                ..session
            },
        }
    }
}

/// The mark put before a line that a nested session passes on.
pub open spec fn relayed(line: Seq<char>) -> Seq<char> {
    "[subminerve] "@ + line
}

/// The tool `kind` as it is announced to the model.
pub open spec fn announced(kind: ToolKind) -> FunctionDefinitionView {
    FunctionDefinitionView {
        name: kind.spec_name(),
        description: Some(kind.spec_description()),
        parameters: Some(schema_of(kind.spec_parameters())),
    }
}

/// The request of a session: the model, the compacted store and the tools
/// of the registry.
pub open spec fn request_of(session: MinerveView) -> RequestView {
    let registry = registry_for(session.context.in_sub_agent);
    RequestView {
        model: MODEL_NAME@,
        messages: compacted(session.messages, session.history_cutoff),
        functions: Some(Seq::new(registry.len(), |i: int| announced(registry[i]))),
    }
}

/// The texts that the assistant has written from position `from` on.
pub open spec fn assistant_texts(messages: Seq<MessageView>, from: nat) -> Seq<Seq<char>>
    decreases messages.len(),
{
    if messages.len() <= from {
        Seq::empty()
    } else {
        let earlier = assistant_texts(messages.drop_last(), from);
        match messages.last().content {
            Some(text) => if messages.last().role == ChatCompletionMessageRole::Assistant {
                earlier.push(text)
            } else {
                earlier
            },
            None => earlier,
        }
    }
}

/// What the assistant has written in the current run, one text per line.
pub open spec fn captured(session: MinerveView) -> Seq<char> {
    joined(assistant_texts(session.messages, session.run_start), "\n"@)
}

impl View for Minerve {
    type V = MinerveView;

    closed spec fn view(&self) -> MinerveView {
        MinerveView {
            messages: self.messages.deep_view(),
            api_key: self.api_key@,
            base_url: self.base_url@,
            request_in_flight: self.request_in_flight,
            prompt_tokens: self.token_counter.prompt(),
            completion_tokens: self.token_counter.completion(),
            context: self.context@,
            state: self.state,
            pending_call: self.pending_call.deep_view(),
            run_start: self.run_start as nat,
            round_trips: self.round_trips as nat,
            max_round_trips: match self.max_round_trips {
                Some(limit) => Some(limit as nat),
                None => None,
            },
            history_cutoff: self.history_cutoff as nat,
        }
    }
}

impl Minerve {
    /// A session with the given credential, on the given service or on the
    /// default one, with the system message in its store.
    pub fn new(api_key: String, base_url: Option<String>, is_headless: bool) -> (out: Self)
        ensures
            out@ == opened(
                api_key@,
                match base_url {
                    Some(url) => url@,
                    None => DEFAULT_BASE_URL@,
                },
                ContextView { is_headless, in_sub_agent: false, guard_active: false },
            ),
            well_formed(out@),
    {
        let base_url = match base_url {
            Some(url) => url,
            None => DEFAULT_BASE_URL.to_owned(),
        };
        let mut messages: Vec<ChatCompletionMessage> = Vec::new();
        messages.push(ChatCompletionMessage::system(get_system_prompt()));
        proof {
            assert(messages.deep_view() =~= seq![
                plain_message(ChatCompletionMessageRole::System, system_prompt()),
            ]);
        }
        Minerve {
            messages,
            api_key,
            base_url,
            request_in_flight: false,
            token_counter: TokenCounter::new(),
            context: SessionContext::new(is_headless),
            state: AgentState::Terminal,
            pending_call: None,
            run_start: 1,
            round_trips: 0,
            max_round_trips: None,
            history_cutoff: HIST_CUTOFF,
        }
    }

    /// The session that a nested run starts from: the same service and the
    /// same surroundings, a store of its own, and the guard up.
    pub fn nested(&self) -> (out: Self)
        ensures
            out@ == (MinerveView {
                max_round_trips: self@.max_round_trips,
                history_cutoff: self@.history_cutoff,
                ..opened(
                    self@.api_key,
                    self@.base_url,
                    ContextView {
                        is_headless: self@.context.is_headless,
                        in_sub_agent: true,
                        guard_active: true,
                    },
                )
            }),
    {
        let mut messages: Vec<ChatCompletionMessage> = Vec::new();
        messages.push(ChatCompletionMessage::system(get_system_prompt()));
        proof {
            assert(messages.deep_view() =~= seq![
                plain_message(ChatCompletionMessageRole::System, system_prompt()),
            ]);
        }
        let mut guard = RecursionGuard::new();
        guard.try_enter();
        Minerve {
            messages,
            api_key: self.api_key.clone(),
            base_url: self.base_url.clone(),
            request_in_flight: false,
            token_counter: TokenCounter::new(),
            context: SessionContext {
                is_headless: self.context.is_headless,
                in_sub_agent: true,
                guard,
            },
            state: AgentState::Terminal,
            pending_call: None,
            run_start: 1,
            round_trips: 0,
            max_round_trips: self.max_round_trips,
            history_cutoff: self.history_cutoff,
        }
    }

    /// Sets, or lifts, the number of replies after which a run asks no
    /// more.
    pub fn set_max_round_trips(&mut self, limit: Option<usize>)
        ensures
            final(self)@ == (MinerveView {
                max_round_trips: match limit {
                    Some(n) => Some(n as nat),
                    None => None,
                },
                ..old(self)@
            }),
    {
        self.max_round_trips = limit;
    }

    /// Sets the number of most recent messages that go out unredacted.
    pub fn set_history_cutoff(&mut self, cutoff: usize)
        ensures
            final(self)@ == (MinerveView { history_cutoff: cutoff as nat, ..old(self)@ }),
    {
        self.history_cutoff = cutoff;
    }

    /// Takes the user's input: it is stored and a run begins.
    pub fn submit(&mut self, user_input: String)
        ensures
            final(self)@ == submitted(old(self)@, user_input@),
            well_formed(old(self)@) ==> well_formed(final(self)@),
    {
        self.messages.push(ChatCompletionMessage::user(user_input));
        proof {
            assert(self.messages.deep_view() =~= old(self).messages.deep_view().push(
                plain_message(ChatCompletionMessageRole::User, user_input@),
            ));
        }
        self.request_in_flight = true;
        self.state = AgentState::AwaitingModel;
        self.pending_call = None;
        self.run_start = self.messages.len();
        self.round_trips = 0;
    }

    /// The request to send: the store is compacted in the copy that goes
    /// out, never in the store itself.
    pub fn build_request(&self) -> (out: ChatCompletionRequest)
        ensures
            out@ == request_of(self@),
    {
        let registry = get_tool_registry(self.context.in_sub_agent);
        let mut functions: Vec<ChatCompletionFunctionDefinition> = Vec::new();
        let mut i: usize = 0;
        while i < registry.len()
            invariant
                i <= registry.len(),
                functions.len() == i,
                forall|j: int| 0 <= j < i ==> functions[j]@ == announced(registry[j]),
            decreases registry.len() - i,
        {
            let kind = registry[i];
            functions.push(
                ChatCompletionFunctionDefinition {
                    name: kind.name().to_owned(),
                    description: Some(kind.description().to_owned()),
                    parameters: Some(kind.function_definition()),
                },
            );
            i += 1;
        }
        proof {
            assert(functions.deep_view() =~= Seq::new(
                registry@.len(),
                |i: int| announced(registry@[i]),
            ));
        }
        ChatCompletionRequest {
            model: MODEL_NAME.to_owned(),
            messages: compacted_copy(&self.messages, self.history_cutoff),
            functions: Some(functions),
        }
    }

    /// The address to send the request to.
    pub fn request_url(&self) -> (out: String)
        ensures
            out@ == self@.base_url + "/chat/completions"@,
    {
        concat2(self.base_url.as_str(), "/chat/completions")
    }

    /// The credential as it goes into the header of the request.
    pub fn authorization(&self) -> (out: String)
        ensures
            out@ == "Bearer "@ + self@.api_key,
    {
        concat2("Bearer ", self.api_key.as_str())
    }

    fn append(&mut self, message: ChatCompletionMessage)
        ensures
            final(self).messages.deep_view() == old(self).messages.deep_view().push(message@),
            final(self).api_key == old(self).api_key,
            final(self).base_url == old(self).base_url,
            final(self).request_in_flight == old(self).request_in_flight,
            final(self).token_counter == old(self).token_counter,
            final(self).context == old(self).context,
            final(self).state == old(self).state,
            final(self).pending_call == old(self).pending_call,
            final(self).run_start == old(self).run_start,
            final(self).round_trips == old(self).round_trips,
            final(self).max_round_trips == old(self).max_round_trips,
            final(self).history_cutoff == old(self).history_cutoff,
    {
        self.messages.push(message);
    }

    fn fail(&mut self, reason: &str)
        ensures
            final(self)@ == (MinerveView {
                messages: old(self)@.messages.push(
                    plain_message(ChatCompletionMessageRole::Assistant, request_error(reason@)),
                ),
                request_in_flight: false,
                state: AgentState::Terminal,
                ..old(self)@
            }),
    {
        self.append(ChatCompletionMessage::assistant(concat2("Request Error: ", reason)));
        self.request_in_flight = false;
        self.state = AgentState::Terminal;
    }

    /// Takes a reply of the service.
    pub fn receive(&mut self, reply: ModelReply)
        ensures
            final(self)@ == received(old(self)@, reply@),
            well_formed(old(self)@) ==> well_formed(final(self)@),
    {
        if self.state != AgentState::AwaitingModel {
            return ;
        }
        if self.round_trips < usize::MAX {
            self.round_trips += 1;
        }
        match reply {
            ModelReply::TransportError(reason) => {
                self.fail(reason.as_str());
            },
            ModelReply::ProtocolError(reason) => {
                self.fail(reason.as_str());
            },
            ModelReply::Answer { message, usage } => {
                self.token_counter.record_usage(&usage);
                self.append(ChatCompletionMessage::assistant_reply(&message));
                match message.function_call {
                    Some(call) => {
                        self.pending_call = Some(call);
                        self.request_in_flight = true;
                        self.state = AgentState::DispatchingTool;
                    },
                    None => {
                        self.pending_call = None;
                        self.request_in_flight = false;
                        self.state = AgentState::Terminal;
                    },
                }
            },
        }
    }

    /// Begins the dispatch of the pending invocation; `None` where none is
    /// pending.
    pub fn dispatch(&mut self) -> (out: Option<Dispatch>)
        ensures
            match old(self)@.pending_call {
                Some(call) => {
                    &&& out matches Some(stage)
                    &&& stage@ == dispatched(call, old(self)@.context)
                    &&& final(self)@ == (MinerveView {
                        context: ContextView {
                            guard_active: guard_after_begin(
                                old(self)@.context.guard_active,
                                stage@,
                            ),
                            ..old(self)@.context
                        },
                        ..old(self)@
                    })
                },
                None => out is None && final(self)@ == old(self)@,
            },
    {
        match &self.pending_call {
            Some(call) => Some(handle_tool_call(call, &mut self.context)),
            None => None,
        }
    }

    /// Takes the dispatch that waits with `state` one stage further.
    pub fn resume_dispatch(&mut self, state: DispatchState, outcome: Outcome) -> (out: Dispatch)
        ensures
            out@ == continued(state@, outcome@, old(self)@.context.is_headless),
            final(self)@ == (MinerveView {
                context: ContextView {
                    guard_active: guard_after_resume(
                        old(self)@.context.guard_active,
                        state@,
                        out@,
                    ),
                    ..old(self)@.context
                },
                ..old(self)@
            }),
    {
        resume_tool_call(state, outcome, &mut self.context)
    }

    /// Takes the result of the tool invocation.
    pub fn complete_tool_call(&mut self, result: ToolCallResult)
        ensures
            final(self)@ == completed(old(self)@, result@),
            well_formed(old(self)@) ==> well_formed(final(self)@),
    {
        if self.state != AgentState::DispatchingTool {
            return ;
        }
        self.pending_call = None;
        match result {
            ToolCallResult::Success(message) => {
                let exhausted = match self.max_round_trips {
                    Some(limit) => self.round_trips >= limit,
                    None => false,
                };
                self.append(message);
                if exhausted {
                    self.request_in_flight = false;
                    self.state = AgentState::Terminal;
                } else {
                    self.request_in_flight = true;
                    self.state = AgentState::AwaitingModel;
                }
            },
            ToolCallResult::Cancelled => {
                self.request_in_flight = false;
                self.state = AgentState::Terminal;
            },
            ToolCallResult::Error(reason) => {
                self.append(
                    ChatCompletionMessage::assistant(
                        concat2("Error occurred in tool call: ", reason.as_str()),
                    ),
                );
                self.request_in_flight = false;
                self.state = AgentState::Terminal;
            },
        }
    }

    /// Stores a line that a nested session passes on, as a message of the
    /// assistant that is marked as coming from there.
    pub fn relay(&mut self, line: &str)
        ensures
            final(self)@ == (MinerveView {
                messages: old(self)@.messages.push(
                    plain_message(ChatCompletionMessageRole::Assistant, relayed(line@)),
                ),
                ..old(self)@
            }),
    {
        self.append(ChatCompletionMessage::assistant(concat2("[subminerve] ", line)));
    }

    /// What the assistant has written in the current run, one text per
    /// line: the answer of a run on the terminal.
    pub fn captured_output(&self) -> (out: String)
        ensures
            out@ == captured(self@),
    {
        let mut texts: Vec<String> = Vec::new();
        let mut i: usize = 0;
        while i < self.messages.len()
            invariant
                i <= self.messages.len(),
                texts.deep_view() == assistant_texts(
                    self.messages.deep_view().take(i as int),
                    self.run_start as nat,
                ),
            decreases self.messages.len() - i,
        {
            proof {
                let upto = self.messages.deep_view().take(i as int + 1);
                assert(upto.drop_last() =~= self.messages.deep_view().take(i as int));
            }
            if i >= self.run_start {
                let message = &self.messages[i];
                match &message.content {
                    Some(text) => {
                        if message.role == ChatCompletionMessageRole::Assistant {
                            texts.push(text.clone());
                        }
                    },
                    None => {},
                }
            }
            i += 1;
        }
        proof {
            assert(self.messages.deep_view().take(self.messages.len() as int)
                =~= self.messages.deep_view());
        }
        join(&texts, "\n")
    }

    /// The message store.
    pub fn messages(&self) -> (out: &Vec<ChatCompletionMessage>)
        ensures
            out.deep_view() == self@.messages,
    {
        &self.messages
    }

    /// Where the loop stands.
    pub fn state(&self) -> (out: AgentState)
        ensures
            out == self@.state,
    {
        self.state
    }

    /// Whether a run is under way.
    pub fn is_request_in_flight(&self) -> (out: bool)
        ensures
            out == self@.request_in_flight,
    {
        self.request_in_flight
    }

    /// The replies received in the current run.
    pub fn round_trips(&self) -> (out: usize)
        ensures
            out == self@.round_trips,
    {
        self.round_trips
    }

    /// The counters of the tokens used.
    pub fn token_counter(&self) -> (out: &TokenCounter)
        ensures
            out.prompt() == self@.prompt_tokens,
            out.completion() == self@.completion_tokens,
    {
        &self.token_counter
    }

    /// The context of the session.
    pub fn context(&self) -> (out: &SessionContext)
        ensures
            out@ == self@.context,
    {
        &self.context
    }
}

/// Whether `earlier` is the beginning of `later`.
pub open spec fn is_prefix(earlier: Seq<MessageView>, later: Seq<MessageView>) -> bool {
    earlier.len() <= later.len() && later.take(earlier.len() as int) == earlier
}

/// A new session is well formed.
pub proof fn lemma_opened_is_well_formed(
    api_key: Seq<char>,
    base_url: Seq<char>,
    context: ContextView,
)
    ensures
        well_formed(opened(api_key, base_url, context)),
{
}

/// The user's input, a reply of the service and the result of a tool keep a
/// session well formed: its store always begins with the system message.
pub proof fn lemma_steps_keep_well_formed(
    session: MinerveView,
    input: Seq<char>,
    reply: ModelReplyView,
    result: ToolCallResultView,
)
    requires
        well_formed(session),
    ensures
        well_formed(submitted(session, input)),
        well_formed(received(session, reply)),
        well_formed(completed(session, result)),
{
}

/// The store only grows: the user's input, a reply of the service and the
/// result of a tool leave every message that is stored where and as it is.
pub proof fn lemma_store_only_grows(
    session: MinerveView,
    input: Seq<char>,
    reply: ModelReplyView,
    result: ToolCallResultView,
)
    ensures
        is_prefix(session.messages, submitted(session, input).messages),
        is_prefix(session.messages, received(session, reply).messages),
        is_prefix(session.messages, completed(session, result).messages),
{
    assert(submitted(session, input).messages.take(session.messages.len() as int)
        =~= session.messages);
    assert(received(session, reply).messages.take(session.messages.len() as int)
        =~= session.messages);
    assert(completed(session, result).messages.take(session.messages.len() as int)
        =~= session.messages);
}

/// A message of the model without a tool invocation ends the run in one
/// reply: the store gains that one message of the assistant, and nothing is
/// left to do.
pub proof fn lemma_plain_reply_ends_run(
    session: MinerveView,
    input: Seq<char>,
    message: MessageView,
    usage: Option<Usage>,
)
    requires
        message.function_call is None,
    ensures
        ({
            let begun = submitted(session, input);
            let ended = received(begun, ModelReplyView::Answer { message, usage });
            &&& ended.state == AgentState::Terminal
            &&& ended.round_trips == 1
            &&& !ended.request_in_flight
            &&& ended.pending_call is None
            &&& ended.messages == begun.messages.push(assistant_turn(message))
            &&& assistant_turn(message).role == ChatCompletionMessageRole::Assistant
        }),
{
}

/// The counters of a session never go down.
pub proof fn lemma_usage_only_grows(session: MinerveView, reply: ModelReplyView)
    requires
        session.prompt_tokens <= usize::MAX,
        session.completion_tokens <= usize::MAX,
    ensures
        received(session, reply).prompt_tokens >= session.prompt_tokens,
        received(session, reply).completion_tokens >= session.completion_tokens,
{
}

} // verus!
