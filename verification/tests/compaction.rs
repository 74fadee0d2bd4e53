use minerve::chat::{ChatCompletionMessage, ChatCompletionMessageRole};
use minerve::compaction::{compact_history, compacted_copy, marker_text, HIST_CUTOFF};

fn sample(len: usize) -> Vec<ChatCompletionMessage> {
    let mut history = vec![ChatCompletionMessage::system("rules".to_string())];
    let mut i = 1;
    while i < len {
        let message = match i % 3 {
            0 => ChatCompletionMessage::user(format!("question {}", i)),
            1 => ChatCompletionMessage::function_result("show_file", format!("dump {}", i)),
            _ => ChatCompletionMessage::assistant(format!("answer {}", i)),
        };
        history.push(message);
        i += 1;
    }
    history
}

#[test]
fn marker_is_the_fixed_text() {
    assert_eq!(marker_text(), "[cleaned from history]");
    assert_eq!(HIST_CUTOFF, 30);
}

#[test]
fn short_history_is_left_alone() {
    let mut history = sample(30);
    let before = sample(30);
    compact_history(&mut history, 30);
    assert_eq!(history, before);
}

#[test]
fn history_one_longer_than_cutoff_redacts_only_index_zero() {
    let mut history = vec![ChatCompletionMessage::function_result("list_files", "a\nb".to_string())];
    history.extend(sample(30));
    assert_eq!(history.len(), 31);
    compact_history(&mut history, 30);
    assert_eq!(history[0].content.as_deref(), Some("[cleaned from history]"));
    assert_eq!(history[0].name.as_deref(), Some("list_files"));
    assert_eq!(history[0].tool_call_id.as_deref(), Some("list_files"));
    assert_eq!(history[2].content.as_deref(), Some("dump 1"));
}

#[test]
fn old_tool_results_are_redacted_and_recent_ones_kept() {
    let mut history = sample(40);
    compact_history(&mut history, 30);
    let mut i = 0;
    while i < 40 {
        let is_tool = i >= 1 && i % 3 == 1;
        if is_tool && i < 10 {
            assert_eq!(history[i].content.as_deref(), Some("[cleaned from history]"));
        } else if is_tool {
            assert_eq!(history[i].content, Some(format!("dump {}", i)));
        }
        i += 1;
    }
    assert_eq!(history[9].content.as_deref(), Some("question 9"));
    assert_eq!(history[10].content.as_deref(), Some("dump 10"));
}

#[test]
fn compaction_is_idempotent() {
    let mut once = sample(75);
    compact_history(&mut once, 30);
    let mut twice = sample(75);
    compact_history(&mut twice, 30);
    compact_history(&mut twice, 30);
    assert_eq!(once, twice);
}

#[test]
fn compaction_keeps_length_roles_and_order() {
    let before = sample(64);
    let mut after = sample(64);
    compact_history(&mut after, 10);
    assert_eq!(after.len(), before.len());
    let mut i = 0;
    while i < before.len() {
        assert_eq!(after[i].role, before[i].role);
        assert_eq!(after[i].name, before[i].name);
        assert_eq!(after[i].tool_call_id, before[i].tool_call_id);
        assert_eq!(after[i].function_call, before[i].function_call);
        if before[i].role != ChatCompletionMessageRole::Function {
            assert_eq!(after[i], before[i]);
        }
        i += 1;
    }
}

#[test]
fn cutoff_zero_redacts_every_tool_result() {
    let mut history = sample(7);
    compact_history(&mut history, 0);
    assert_eq!(history[1].content.as_deref(), Some("[cleaned from history]"));
    assert_eq!(history[4].content.as_deref(), Some("[cleaned from history]"));
    assert_eq!(history[0].content.as_deref(), Some("rules"));
    assert_eq!(history[6].content.as_deref(), Some("question 6"));
}

#[test]
fn empty_history_stays_empty() {
    let mut history: Vec<ChatCompletionMessage> = Vec::new();
    compact_history(&mut history, 30);
    assert!(history.is_empty());
}

#[test]
fn compacted_copy_leaves_the_store_alone() {
    let store = sample(45);
    let copy = compacted_copy(&store, 30);
    assert_eq!(store, sample(45));
    let mut expected = sample(45);
    compact_history(&mut expected, 30);
    assert_eq!(copy, expected);
    assert_eq!(copy[1].content.as_deref(), Some("[cleaned from history]"));
    assert_eq!(store[1].content.as_deref(), Some("dump 1"));
}

#[test]
fn redaction_gives_content_to_a_tool_result_without_one() {
    let mut bare = ChatCompletionMessage::function_result("git_diff", String::new());
    bare.content = None;
    let mut history = vec![bare];
    history.extend(sample(3));
    compact_history(&mut history, 2);
    assert_eq!(history[0].content.as_deref(), Some("[cleaned from history]"));
}
