//! What the screen shows of the conversation.

use crate::chat::{ChatCompletionMessage, ChatCompletionMessageRole, MessageView};
use crate::text::{concat2, decimal, decimal_digits, equal, from_chars, to_chars, trim, trimmed};
use crate::token_counter::TokenCounter;
use vstd::prelude::*;

verus! {

/// The most recent messages that the screen shows.
pub const SHOWN_MESSAGES: usize = 10;

/// The most characters of a message that the screen shows of anybody but
/// the assistant.
pub const MAX_OUTPUT_LEN: usize = 500;

/// The name under which the author of a message appears.
pub open spec fn author_of(message: MessageView) -> Seq<char> {
    match message.role {
        ChatCompletionMessageRole::System => "system"@,
        ChatCompletionMessageRole::User => "user"@,
        ChatCompletionMessageRole::Assistant => "minerve"@,
        ChatCompletionMessageRole::Function => match message.tool_call_id {
            Some(id) => id,
            None => "unknown function call"@,
        },
    }
}

/// A message as the screen takes it: its author and its text.
pub open spec fn entry_of(message: MessageView) -> (Seq<char>, Seq<char>) {
    (
        author_of(message),
        match message.content {
            Some(text) => text,
            None => Seq::empty(),
        },
    )
}

/// The messages as the screen takes them.
pub open spec fn entries_of(messages: Seq<MessageView>) -> Seq<(Seq<char>, Seq<char>)> {
    Seq::new(messages.len(), |i: int| entry_of(messages[i]))
}

/// The messages as the screen takes them: each with its author and its
/// text.
pub fn ui_messages(messages: &Vec<ChatCompletionMessage>) -> (out: Vec<(String, String)>)
    ensures
        out.deep_view() == entries_of(messages.deep_view()),
{
    let mut out: Vec<(String, String)> = Vec::new();
    let mut i: usize = 0;
    while i < messages.len()
        invariant
            i <= messages.len(),
            out.len() == i,
            forall|j: int| 0 <= j < i ==> out[j].deep_view() == entry_of(messages[j]@),
        decreases messages.len() - i,
    {
        let message = &messages[i];
        let author = match message.role {
            ChatCompletionMessageRole::System => "system".to_owned(),
            ChatCompletionMessageRole::User => "user".to_owned(),
            ChatCompletionMessageRole::Assistant => "minerve".to_owned(),
            ChatCompletionMessageRole::Function => match &message.tool_call_id {
                Some(id) => id.clone(),
                None => "unknown function call".to_owned(),
            },
        };
        let text = match &message.content {
            Some(text) => text.clone(),
            None => String::new(),
        };
        out.push((author, text));
        i += 1;
    }
    out
}

/// How a label is set off on the screen.
#[derive(Debug, Clone, Copy, PartialEq, Eq, Structural)]
pub enum LabelStyle {
    /// The user: green.
    User,
    /// The assistant: cyan.
    Assistant,
    /// A tool: the plain colour.
    Tool,
}

/// One block of the screen: a label and the text below it.
#[derive(Debug, PartialEq, Eq)]
pub struct ChatBlock {
    pub label: String,
    pub style: LabelStyle,
    pub body: String,
}

/// The mathematical value of a [`ChatBlock`].
pub struct ChatBlockView {
    pub label: Seq<char>,
    pub style: LabelStyle,
    pub body: Seq<char>,
}

impl View for ChatBlock {
    type V = ChatBlockView;

    open spec fn view(&self) -> ChatBlockView {
        ChatBlockView { label: self.label@, style: self.style, body: self.body@ }
    }
}

impl DeepView for ChatBlock {
    type V = ChatBlockView;

    open spec fn deep_view(&self) -> ChatBlockView {
        self@
    }
}

/// The text shown for a message: a long text of the assistant without the
/// white space around it, any other long text cut down and marked as cut.
pub open spec fn shown_text(author: Seq<char>, text: Seq<char>) -> Seq<char> {
    if text.len() > MAX_OUTPUT_LEN {
        if author != "minerve"@ {
            text.take(MAX_OUTPUT_LEN as int) + "\n...[truncated]"@
        } else {
            trimmed(text)
        }
    } else {
        text
    }
}

/// The block shown for a message.
pub open spec fn block_of(entry: (Seq<char>, Seq<char>)) -> ChatBlockView {
    if entry.0 == "user"@ {
        ChatBlockView {
            label: "You"@,
            style: LabelStyle::User,
            body: shown_text(entry.0, entry.1),
        }
    } else if entry.0 == "minerve"@ {
        ChatBlockView {
            label: "Minerve"@,
            style: LabelStyle::Assistant,
            body: shown_text(entry.0, entry.1),
        }
    } else {
        ChatBlockView {
            label: entry.0,
            style: LabelStyle::Tool,
            body: shown_text(entry.0, entry.1),
        }
    }
}

/// The blocks shown for the first `upto` of `entries`: those of the system
/// are left out.
pub open spec fn blocks_upto(entries: Seq<(Seq<char>, Seq<char>)>, upto: nat) -> Seq<ChatBlockView>
    decreases upto,
{
    if upto == 0 || upto > entries.len() {
        Seq::empty()
    } else {
        let earlier = blocks_upto(entries, (upto - 1) as nat);
        if entries[upto - 1].0 == "system"@ {
            earlier
        } else {
            earlier.push(block_of(entries[upto - 1]))
        }
    }
}

/// The last `count` of `entries`, or all of them where there are fewer.
pub open spec fn latest(entries: Seq<(Seq<char>, Seq<char>)>, count: nat) -> Seq<
    (Seq<char>, Seq<char>),
> {
    if entries.len() <= count {
        entries
    } else {
        entries.skip(entries.len() - count)
    }
}

/// What the screen shows: the blocks of the last ten messages, without
/// those of the system.
pub open spec fn screen_of(entries: Seq<(Seq<char>, Seq<char>)>) -> Seq<ChatBlockView> {
    let shown = latest(entries, SHOWN_MESSAGES as nat);
    blocks_upto(shown, shown.len())
}

fn shorten(author: &str, text: &str) -> (out: String)
    ensures
        out@ == shown_text(author@, text@),
{
    let chars = to_chars(text);
    if chars.len() > MAX_OUTPUT_LEN {
        if !equal(author, "minerve") {
            let mut out = from_chars(&chars, 0, MAX_OUTPUT_LEN);
            out.append("\n...[truncated]");
            out
        } else {
            trim(text)
        }
    } else {
        text.to_owned()
    }
}

/// Lays out what the screen shows of the messages.
pub fn chat_blocks(entries: &Vec<(String, String)>) -> (out: Vec<ChatBlock>)
    ensures
        out.deep_view() == screen_of(entries.deep_view()),
{
    let first: usize = if entries.len() <= SHOWN_MESSAGES {
        0
    } else {
        entries.len() - SHOWN_MESSAGES
    };
    let ghost shown = latest(entries.deep_view(), SHOWN_MESSAGES as nat);
    let mut out: Vec<ChatBlock> = Vec::new();
    let mut i: usize = first;
    while i < entries.len()
        invariant
            first <= i <= entries.len(),
            shown == entries.deep_view().skip(first as int),
            out.deep_view() == blocks_upto(shown, (i - first) as nat),
        decreases entries.len() - i,
    {
        let author = entries[i].0.as_str();
        let text = entries[i].1.as_str();
        if !equal(author, "system") {
            let body = shorten(author, text);
            let block = if equal(author, "user") {
                ChatBlock { label: "You".to_owned(), style: LabelStyle::User, body }
            } else if equal(author, "minerve") {
                ChatBlock { label: "Minerve".to_owned(), style: LabelStyle::Assistant, body }
            } else {
                ChatBlock { label: author.to_owned(), style: LabelStyle::Tool, body }
            };
            out.push(block);
        }
        i += 1;
    }
    out
}

/// The line that reports the tokens used.
pub open spec fn usage_line(prompt: nat, completion: nat) -> Seq<char> {
    "Sent: "@ + decimal_digits(prompt) + " | Received: "@ + decimal_digits(completion)
}

/// The line that reports the tokens used.
pub fn token_line(counter: &TokenCounter) -> (out: String)
    ensures
        out@ == usage_line(counter.prompt(), counter.completion()),
{
    let mut out = concat2("Sent: ", decimal(counter.current_prompt()).as_str());
    out.append(" | Received: ");
    out.append(decimal(counter.current_completion()).as_str());
    out
}

} // verus!
