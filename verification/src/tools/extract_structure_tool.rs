use crate::text::{
    concat2, contains_char, from_chars, has_prefix, push_repeated, repeated, starts_with, to_chars,
    trim_bounds, trimmed,
};
use crate::tools::params::{lookup, ToolParams};
use crate::tools::step::{
    failure_of, unexpected, unexpected_outcome, Effect, EffectView, Outcome, OutcomeView, Pending,
    PendingView, Step, StepView,
};
use crate::tools::{ExecuteCommandSettings, Tool};
use vstd::prelude::*;

verus! {

/// `s` without the occurrences of `c`.
pub open spec fn without(s: Seq<char>, c: char) -> Seq<char>
    decreases s.len(),
{
    if s.len() == 0 {
        Seq::empty()
    } else if s.last() == c {
        without(s.drop_last(), c)
    } else {
        without(s.drop_last(), c).push(s.last())
    }
}

/// Whether a trimmed line says nothing of the structure: it is empty or a
/// comment.
pub open spec fn is_skipped(line: Seq<char>) -> bool {
    ||| line.len() == 0
    ||| starts_with(line, "//"@)
    ||| starts_with(line, "/*"@)
    ||| starts_with(line, "*"@)
}

/// Whether a trimmed line opens a block: it holds an opening brace or ends
/// in a colon.
pub open spec fn opens_block(line: Seq<char>) -> bool {
    line.contains('{') || (line.len() > 0 && line.last() == ':')
}

/// Whether a trimmed line closes a block.
pub open spec fn closes_block(line: Seq<char>) -> bool {
    line.contains('}')
}

/// The outline so far: how deep the lines read stand nested, and the text
/// written.
pub struct Outline {
    pub depth: nat,
    pub text: Seq<char>,
}

/// The outline after one more line. A line that opens a block is written as
/// a header at the current depth, without its braces, and below it, one
/// level deeper, a line that stands for its body; a line that only closes a
/// block leads one level up, never above the top.
pub open spec fn outline_step(state: Outline, line: Seq<char>) -> Outline {
    let t = trimmed(line);
    if is_skipped(t) {
        state
    } else if opens_block(t) {
        Outline {
            depth: state.depth + 1,
            text: state.text + repeated("    "@, state.depth) + trimmed(without(t, '{')) + "\n"@
                + repeated("    "@, state.depth + 1) + "// [...]\n"@,
        }
    } else if closes_block(t) {
        Outline {
            depth: if state.depth > 0 {
                (state.depth - 1) as nat
            } else {
                0
            },
            text: state.text,
        }
    } else {
        state
    }
}

/// The outline of `lines`.
pub open spec fn outline(lines: Seq<Seq<char>>) -> Outline
    decreases lines.len(),
{
    if lines.len() == 0 {
        Outline { depth: 0, text: Seq::empty() }
    } else {
        outline_step(outline(lines.drop_last()), lines.last())
    }
}

fn slice(chars: &Vec<char>, from: usize, to: usize) -> (out: Vec<char>)
    requires
        from <= to <= chars.len(),
    ensures
        out@ == chars@.subrange(from as int, to as int),
{
    let mut out: Vec<char> = Vec::new();
    let mut i: usize = from;
    while i < to
        invariant
            from <= i <= to <= chars.len(),
            out@ == chars@.subrange(from as int, i as int),
        decreases to - i,
    {
        out.push(chars[i]);
        i += 1;
    }
    out
}

fn remove_char(chars: &Vec<char>, c: char) -> (out: Vec<char>)
    ensures
        out@ == without(chars@, c),
{
    let mut out: Vec<char> = Vec::new();
    let mut i: usize = 0;
    while i < chars.len()
        invariant
            i <= chars.len(),
            out@ == without(chars@.take(i as int), c),
        decreases chars.len() - i,
    {
        proof {
            assert(chars@.take(i as int + 1).drop_last() =~= chars@.take(i as int));
        }
        if chars[i] != c {
            out.push(chars[i]);
        }
        i += 1;
    }
    proof {
        assert(chars@.take(chars.len() as int) =~= chars@);
    }
    out
}

fn skipped(line: &Vec<char>) -> (out: bool)
    ensures
        out == is_skipped(line@),
{
    line.len() == 0 || has_prefix(line, &to_chars("//")) || has_prefix(line, &to_chars("/*"))
        || has_prefix(line, &to_chars("*"))
}

/// Extracts the structure of a text given by its lines: the headers of its
/// blocks, indented by four spaces per level, each followed by a line that
/// stands for its body.
pub fn extract_structure(lines: &Vec<String>) -> (out: String)
    ensures
        out@ == outline(lines.deep_view()).text,
{
    let mut out = String::new();
    let mut depth: usize = 0;
    let mut i: usize = 0;
    while i < lines.len()
        invariant
            i <= lines.len(),
            depth <= i,
            depth == outline(lines.deep_view().take(i as int)).depth,
            out@ == outline(lines.deep_view().take(i as int)).text,
        decreases lines.len() - i,
    {
        proof {
            let upto = lines.deep_view().take(i as int + 1);
            assert(upto.drop_last() =~= lines.deep_view().take(i as int));
        }
        let chars = to_chars(lines[i].as_str());
        let bounds = trim_bounds(&chars);
        let t = slice(&chars, bounds.0, bounds.1);
        if skipped(&t) {
        } else if contains_char(&t, '{') || (t.len() > 0 && t[t.len() - 1] == ':') {
            let bare = remove_char(&t, '{');
            let inner = trim_bounds(&bare);
            let header = from_chars(&bare, inner.0, inner.1);
            push_repeated(&mut out, "    ", depth);
            out.append(header.as_str());
            out.append("\n");
            depth += 1;
            push_repeated(&mut out, "    ", depth);
            out.append("// [...]\n");
        } else if contains_char(&t, '}') {
            if depth > 0 {
                depth -= 1;
            }
        }
        i += 1;
    }
    proof {
        assert(lines.deep_view().take(lines.len() as int) =~= lines.deep_view());
    }
    out
}

/// Shows the structure of a file: its nested blocks without their bodies.
#[derive(Debug, Clone, Copy)]
pub struct ExtractStructureTool;

impl ExtractStructureTool {
    /// The answer to the read of the lines: the outline, or the failure.
    pub open spec fn outlined(outcome: OutcomeView) -> Seq<char> {
        match outcome {
            OutcomeView::Lines(lines) => outline(lines).text,
            _ => match failure_of(outcome) {
                Some(message) => "[Error] Failed to extract structure: "@ + message,
                None => unexpected_outcome(),
            },
        }
    }

    /// Answers to the read of the lines.
    pub fn after_lines(outcome: Outcome) -> (out: String)
        ensures
            out@ == Self::outlined(outcome@),
    {
        match outcome {
            Outcome::Lines(lines) => extract_structure(&lines),
            other => match other.failure() {
                Some(message) => concat2("[Error] Failed to extract structure: ", message.as_str()),
                None => unexpected(),
            },
        }
    }
}

impl Tool for ExtractStructureTool {
    open spec fn spec_name(&self) -> Seq<char> {
        "extract_structure"@
    }

    open spec fn spec_description(&self) -> Seq<char> {
        "Extracts structure of a file, showing nested blocks. Use this to get an overview of a code file."@
    }

    open spec fn spec_parameters(&self) -> Seq<(Seq<char>, Seq<char>)> {
        seq![("filepath"@, "string"@)]
    }

    open spec fn spec_run(&self, args: Seq<(Seq<char>, Seq<char>)>, is_headless: bool) -> StepView {
        match lookup(args, "filepath"@) {
            Some(path) => StepView::Perform(
                EffectView::ReadLines { path },
                PendingView::ExtractStructure,
            ),
            None => StepView::Reply("[Error] Missing 'filepath' parameter."@),
        }
    }

    fn name(&self) -> (out: &'static str) {
        "extract_structure"
    }

    fn description(&self) -> (out: &'static str) {
        "Extracts structure of a file, showing nested blocks. Use this to get an overview of a code file."
    }

    fn parameters(&self) -> (out: Vec<(&'static str, &'static str)>) {
        let mut params: Vec<(&'static str, &'static str)> = Vec::new();
        params.push(("filepath", "string"));
        params
    }

    fn run(&self, params: &ToolParams, settings: ExecuteCommandSettings) -> (out: Step) {
        match params.get("filepath") {
            Some(path) => Step::Perform(
                Effect::ReadLines { path: path.clone() },
                Pending::ExtractStructure,
            ),
            None => Step::Reply("[Error] Missing 'filepath' parameter.".to_owned()),
        }
    }
}

} // verus!
