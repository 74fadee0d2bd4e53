//! The history compactor: old tool results are redacted from the history
//! before it is sent, so that requests stay bounded.

use crate::chat::{ChatCompletionMessage, ChatCompletionMessageRole, MessageView};
use vstd::prelude::*;

verus! {

/// The number of most recent messages that are never redacted.
pub const HIST_CUTOFF: usize = 30;

/// The text that stands in for a redacted tool result.
pub open spec fn redaction_marker() -> Seq<char> {
    "[cleaned from history]"@
}

/// Whether the message at `index` of `history` is redacted under `cutoff`:
/// it is a tool result and more than `cutoff` messages follow its predecessor.
pub open spec fn qualifies(history: Seq<MessageView>, cutoff: nat, index: int) -> bool {
    &&& 0 <= index
    &&& index + cutoff < history.len()
    &&& history[index].role == ChatCompletionMessageRole::Function
}

/// `message` with its content replaced by the redaction marker.
pub open spec fn redacted(message: MessageView) -> MessageView {
    MessageView { content: Some(redaction_marker()), ..message }
}

/// `history` after compaction with the given cutoff.
pub open spec fn compacted(history: Seq<MessageView>, cutoff: nat) -> Seq<MessageView> {
    Seq::new(
        history.len(),
        |i: int|
            if qualifies(history, cutoff, i) {
                redacted(history[i])
            } else {
                history[i]
            },
    )
}

/// The redaction marker.
pub fn marker_text() -> (out: String)
    ensures
        out@ == redaction_marker(),
{
    "[cleaned from history]".to_owned()
}

/// Redacts in place every tool result of `history` that is older than the
/// last `cutoff` messages.
pub fn compact_history(history: &mut Vec<ChatCompletionMessage>, cutoff: usize)
    ensures
        final(history).deep_view() == compacted(old(history).deep_view(), cutoff as nat),
{
    let len = history.len();
    if len <= cutoff {
        return ;
    }
    let bound: usize = len - cutoff;
    let mut i: usize = 0;
    while i < bound
        invariant
            i <= bound,
            bound + cutoff == len,
            history.len() == len,
            old(history).len() == len,
            forall|j: int|
                0 <= j < i ==> history[j]@ == compacted(old(history).deep_view(), cutoff as nat)[j],
            forall|j: int| i <= j < len ==> history[j]@ == old(history)[j]@,
        decreases bound - i,
    {
        if history[i].role == ChatCompletionMessageRole::Function {
            history[i].content = Some(marker_text());
        }
        i += 1;
    }
}

/// The compacted copy of `history` that goes out with a request; `history`
/// itself stays as it is.
pub fn compacted_copy(history: &Vec<ChatCompletionMessage>, cutoff: usize) -> (out: Vec<
    ChatCompletionMessage,
>)
    ensures
        out.deep_view() == compacted(history.deep_view(), cutoff as nat),
{
    let mut out: Vec<ChatCompletionMessage> = Vec::new();
    let mut i: usize = 0;
    while i < history.len()
        invariant
            i <= history.len(),
            out.len() == i,
            forall|j: int| 0 <= j < i ==> out[j]@ == history[j]@,
        decreases history.len() - i,
    {
        out.push(history[i].clone());
        i += 1;
    }
    compact_history(&mut out, cutoff);
    out
}

/// Compacting twice gives what compacting once gives.
pub proof fn lemma_compaction_idempotent(history: Seq<MessageView>, cutoff: nat)
    ensures
        compacted(compacted(history, cutoff), cutoff) == compacted(history, cutoff),
{
    let once = compacted(history, cutoff);
    assert forall|i: int| 0 <= i < once.len() implies qualifies(once, cutoff, i) == qualifies(
        history,
        cutoff,
        i,
    ) by {}
}

/// Compaction removes nothing and moves nothing: the result has the length
/// of the input, every message keeps its role and all it carries but the
/// content, and the content changes only where a tool result qualifies, to
/// the redaction marker.
pub proof fn lemma_compaction_preserves_shape(history: Seq<MessageView>, cutoff: nat)
    ensures
        compacted(history, cutoff).len() == history.len(),
        forall|i: int|
            0 <= i < history.len() ==> {
                let before = history[i];
                let after = #[trigger] compacted(history, cutoff)[i];
                &&& after.role == before.role
                &&& after.name == before.name
                &&& after.function_call == before.function_call
                &&& after.tool_call_id == before.tool_call_id
                &&& after.tool_calls == before.tool_calls
                &&& qualifies(history, cutoff, i) ==> after.content == Some(redaction_marker())
                &&& !qualifies(history, cutoff, i) ==> after == before
            },
{
}

/// A history of at most `cutoff` messages is left as it is.
pub proof fn lemma_short_history_unchanged(history: Seq<MessageView>, cutoff: nat)
    requires
        history.len() <= cutoff,
    ensures
        compacted(history, cutoff) == history,
{
}

} // verus!
