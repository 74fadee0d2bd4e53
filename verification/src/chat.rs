//! The data exchanged with the chat-completion service.

use crate::tools::schema::{FunctionSchema, FunctionSchemaView};
use vstd::prelude::*;

verus! {

/// Who wrote a message.
#[derive(Debug, Clone, Copy, PartialEq, Eq, Structural)]
pub enum ChatCompletionMessageRole {
    System,
    User,
    Assistant,
    Function,
}

/// A tool invocation as the model wrote it: the tool's name and the raw
/// argument payload.
#[derive(Debug, PartialEq, Eq)]
pub struct ChatCompletionFunctionCall {
    pub name: String,
    pub arguments: String,
}

/// The mathematical value of a [`ChatCompletionFunctionCall`].
pub struct FunctionCallView {
    pub name: Seq<char>,
    pub arguments: Seq<char>,
}

impl View for ChatCompletionFunctionCall {
    type V = FunctionCallView;

    open spec fn view(&self) -> FunctionCallView {
        FunctionCallView { name: self.name@, arguments: self.arguments@ }
    }
}

impl DeepView for ChatCompletionFunctionCall {
    type V = FunctionCallView;

    open spec fn deep_view(&self) -> FunctionCallView {
        self@
    }
}

impl Clone for ChatCompletionFunctionCall {
    fn clone(&self) -> (out: Self)
        ensures
            out@ == self@,
    {
        ChatCompletionFunctionCall { name: self.name.clone(), arguments: self.arguments.clone() }
    }
}

/// One turn of the conversation.
#[derive(Debug, PartialEq, Eq)]
pub struct ChatCompletionMessage {
    pub role: ChatCompletionMessageRole,
    pub content: Option<String>,
    pub name: Option<String>,
    pub function_call: Option<ChatCompletionFunctionCall>,
    pub tool_call_id: Option<String>,
    pub tool_calls: Option<Vec<String>>,
}

/// The mathematical value of a [`ChatCompletionMessage`].
pub struct MessageView {
    pub role: ChatCompletionMessageRole,
    pub content: Option<Seq<char>>,
    pub name: Option<Seq<char>>,
    pub function_call: Option<FunctionCallView>,
    pub tool_call_id: Option<Seq<char>>,
    pub tool_calls: Option<Seq<Seq<char>>>,
}

impl View for ChatCompletionMessage {
    type V = MessageView;

    open spec fn view(&self) -> MessageView {
        MessageView {
            role: self.role,
            content: self.content.deep_view(),
            name: self.name.deep_view(),
            function_call: self.function_call.deep_view(),
            tool_call_id: self.tool_call_id.deep_view(),
            tool_calls: self.tool_calls.deep_view(),
        }
    }
}

impl DeepView for ChatCompletionMessage {
    type V = MessageView;

    open spec fn deep_view(&self) -> MessageView {
        self@
    }
}

/// A copy of an optional text.
pub fn clone_text(text: &Option<String>) -> (out: Option<String>)
    ensures
        out.deep_view() == text.deep_view(),
{
    match text {
        Some(s) => Some(s.clone()),
        None => None,
    }
}

/// A copy of a list of texts.
pub fn clone_texts(texts: &Vec<String>) -> (out: Vec<String>)
    ensures
        out.deep_view() == texts.deep_view(),
{
    let mut out: Vec<String> = Vec::new();
    let mut i: usize = 0;
    while i < texts.len()
        invariant
            i <= texts.len(),
            out.len() == i,
            forall|j: int| 0 <= j < i ==> out[j]@ == texts[j]@,
        decreases texts.len() - i,
    {
        out.push(texts[i].clone());
        i += 1;
    }
    out
}

impl Clone for ChatCompletionMessage {
    fn clone(&self) -> (out: Self)
        ensures
            out@ == self@,
    {
        let function_call = match &self.function_call {
            Some(call) => Some(call.clone()),
            None => None,
        };
        let tool_calls = match &self.tool_calls {
            Some(ids) => Some(clone_texts(ids)),
            None => None,
        };
        ChatCompletionMessage {
            role: self.role,
            content: clone_text(&self.content),
            name: clone_text(&self.name),
            function_call,
            tool_call_id: clone_text(&self.tool_call_id),
            tool_calls,
        }
    }
}

/// The value of a message that carries only a role and a text.
pub open spec fn plain_message(role: ChatCompletionMessageRole, content: Seq<char>) -> MessageView {
    MessageView {
        role,
        content: Some(content),
        name: None,
        function_call: None,
        tool_call_id: None,
        tool_calls: None,
    }
}

/// The value of the message that reports what the tool `tool_name` returned.
pub open spec fn function_message(tool_name: Seq<char>, output: Seq<char>) -> MessageView {
    MessageView {
        role: ChatCompletionMessageRole::Function,
        content: Some(output),
        name: Some(tool_name),
        function_call: None,
        tool_call_id: Some(tool_name),
        tool_calls: None,
    }
}

/// The value of the assistant turn kept in the store for a reply of the
/// model: its text and its tool invocation, nothing else.
pub open spec fn assistant_turn(reply: MessageView) -> MessageView {
    MessageView {
        role: ChatCompletionMessageRole::Assistant,
        content: reply.content,
        name: None,
        function_call: reply.function_call,
        tool_call_id: None,
        tool_calls: None,
    }
}

impl ChatCompletionMessage {
    /// A message with a role and a text.
    pub fn plain(role: ChatCompletionMessageRole, content: String) -> (out: Self)
        ensures
            out@ == plain_message(role, content@),
    {
        ChatCompletionMessage {
            role,
            content: Some(content),
            name: None,
            function_call: None,
            tool_call_id: None,
            tool_calls: None,
        }
    }

    /// The system message that opens a session.
    pub fn system(content: String) -> (out: Self)
        ensures
            out@ == plain_message(ChatCompletionMessageRole::System, content@),
    {
        Self::plain(ChatCompletionMessageRole::System, content)
    }

    /// A message written by the user.
    pub fn user(content: String) -> (out: Self)
        ensures
            out@ == plain_message(ChatCompletionMessageRole::User, content@),
    {
        Self::plain(ChatCompletionMessageRole::User, content)
    }

    /// A message written by the assistant, without a tool invocation.
    pub fn assistant(content: String) -> (out: Self)
        ensures
            out@ == plain_message(ChatCompletionMessageRole::Assistant, content@),
    {
        Self::plain(ChatCompletionMessageRole::Assistant, content)
    }

    /// The message that reports what the tool `tool_name` returned.
    pub fn function_result(tool_name: &str, output: String) -> (out: Self)
        ensures
            out@ == function_message(tool_name@, output@),
    {
        ChatCompletionMessage {
            role: ChatCompletionMessageRole::Function,
            content: Some(output),
            name: Some(tool_name.to_owned()),
            function_call: None,
            tool_call_id: Some(tool_name.to_owned()),
            tool_calls: None,
        }
    }

    /// The assistant turn kept in the store for a reply of the model.
    pub fn assistant_reply(reply: &ChatCompletionMessage) -> (out: Self)
        ensures
            out@ == assistant_turn(reply@),
    {
        let function_call = match &reply.function_call {
            Some(call) => Some(call.clone()),
            None => None,
        };
        ChatCompletionMessage {
            role: ChatCompletionMessageRole::Assistant,
            content: clone_text(&reply.content),
            name: None,
            function_call,
            tool_call_id: None,
            tool_calls: None,
        }
    }
}

/// A tool as it is announced to the model.
#[derive(Debug, PartialEq, Eq)]
pub struct ChatCompletionFunctionDefinition {
    pub name: String,
    pub description: Option<String>,
    pub parameters: Option<FunctionSchema>,
}

/// The mathematical value of a [`ChatCompletionFunctionDefinition`].
pub struct FunctionDefinitionView {
    pub name: Seq<char>,
    pub description: Option<Seq<char>>,
    pub parameters: Option<FunctionSchemaView>,
}

impl View for ChatCompletionFunctionDefinition {
    type V = FunctionDefinitionView;

    open spec fn view(&self) -> FunctionDefinitionView {
        FunctionDefinitionView {
            name: self.name@,
            description: self.description.deep_view(),
            parameters: self.parameters.deep_view(),
        }
    }
}

impl DeepView for ChatCompletionFunctionDefinition {
    type V = FunctionDefinitionView;

    open spec fn deep_view(&self) -> FunctionDefinitionView {
        self@
    }
}

/// What is sent to the service: the model, the conversation so far and the
/// tools on offer.
#[derive(Debug, PartialEq, Eq)]
pub struct ChatCompletionRequest {
    pub model: String,
    pub messages: Vec<ChatCompletionMessage>,
    pub functions: Option<Vec<ChatCompletionFunctionDefinition>>,
}

/// The mathematical value of a [`ChatCompletionRequest`].
pub struct RequestView {
    pub model: Seq<char>,
    pub messages: Seq<MessageView>,
    pub functions: Option<Seq<FunctionDefinitionView>>,
}

impl View for ChatCompletionRequest {
    type V = RequestView;

    open spec fn view(&self) -> RequestView {
        RequestView {
            model: self.model@,
            messages: self.messages.deep_view(),
            functions: self.functions.deep_view(),
        }
    }
}

/// Token usage reported with a response.
#[derive(Debug, Clone, Copy, PartialEq, Eq)]
pub struct Usage {
    pub prompt_tokens: u64,
    pub completion_tokens: u64,
    pub _total_tokens: u64,
}

/// One alternative of a response.
#[derive(Debug, PartialEq, Eq)]
pub struct ChatCompletionChoice {
    pub message: ChatCompletionMessage,
}

/// What the service answers to a request.
#[derive(Debug, PartialEq, Eq)]
pub struct ChatCompletionResponse {
    pub choices: Vec<ChatCompletionChoice>,
    pub usage: Option<Usage>,
}

/// How a tool invocation ended.
#[derive(Debug, PartialEq, Eq)]
pub enum ToolCallResult {
    Success(ChatCompletionMessage),
    Cancelled,
    Error(String),
}

/// The mathematical value of a [`ToolCallResult`].
pub enum ToolCallResultView {
    Success(MessageView),
    Cancelled,
    Error(Seq<char>),
}

impl View for ToolCallResult {
    type V = ToolCallResultView;

    open spec fn view(&self) -> ToolCallResultView {
        match self {
            ToolCallResult::Success(message) => ToolCallResultView::Success(message@),
            ToolCallResult::Cancelled => ToolCallResultView::Cancelled,
            ToolCallResult::Error(reason) => ToolCallResultView::Error(reason@),
        }
    }
}

} // verus!
