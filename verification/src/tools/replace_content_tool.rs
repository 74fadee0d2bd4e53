use crate::pattern::{
    compile_failure, escape, escaped, find, pattern_error, pattern_finds, pattern_replaced,
    replace_all,
};
use crate::text::{concat2, concat3, to_chars};
use crate::tools::params::{optional_text, required_text, ParamName, ToolParams};
use crate::tools::step::{
    failure_of, unexpected, unexpected_outcome, Effect, EffectView, Outcome, OutcomeView, Pending,
    PendingView, Step, StepView,
};
use crate::tools::{ExecuteCommandSettings, Tool};
use vstd::prelude::*;

verus! {

/// How many more `open` than `close` characters `s` holds. A character that
/// is both counts as `open`.
pub open spec fn excess(s: Seq<char>, open: char, close: char) -> int
    decreases s.len(),
{
    if s.len() == 0 {
        0
    } else {
        excess(s.drop_last(), open, close) + if s.last() == open {
            1int
        } else if s.last() == close {
            -1int
        } else {
            0int
        }
    }
}

/// Whether `open` and `close` are balanced in `s`: as many of the one as of
/// the other, and at no point more closed than opened.
pub open spec fn balanced(s: Seq<char>, open: char, close: char) -> bool {
    &&& excess(s, open, close) == 0
    &&& forall|k: int| 0 <= k <= s.len() ==> #[trigger] excess(s.take(k), open, close) >= 0
}

/// The complaint about an unbalanced text.
pub open spec fn unbalanced(open: char) -> Seq<char> {
    if open == '(' {
        "[Error] Unbalanced parentheses in content"@
    } else {
        "[Error] Unbalanced brackets in content"@
    }
}

fn complaint(open: char) -> (out: String)
    ensures
        out@ == unbalanced(open),
{
    if open == '(' {
        "[Error] Unbalanced parentheses in content".to_owned()
    } else {
        "[Error] Unbalanced brackets in content".to_owned()
    }
}

/// Checks that `open` and `close` are balanced in `content`; where they are
/// not, the error is the complaint to hand to the model.
pub fn check_string_balance(content: &str, open: char, close: char) -> (out: Result<(), String>)
    ensures
        out is Ok <==> balanced(content@, open, close),
        out matches Err(message) ==> message@ == unbalanced(open),
{
    let chars = to_chars(content);
    let mut balance: usize = 0;
    let mut i: usize = 0;
    while i < chars.len()
        invariant
            chars@ == content@,
            i <= chars.len(),
            balance <= i,
            balance == excess(chars@.take(i as int), open, close),
            forall|k: int| 0 <= k <= i ==> #[trigger] excess(chars@.take(k), open, close) >= 0,
        decreases chars.len() - i,
    {
        proof {
            assert(chars@.take(i as int + 1).drop_last() =~= chars@.take(i as int));
        }
        let c = chars[i];
        if c == open {
            balance += 1;
        } else if c == close {
            if balance == 0 {
                proof {
                    assert(excess(chars@.take(i as int + 1), open, close) < 0);
                }
                return Err(complaint(open));
            }
            balance -= 1;
        }
        i += 1;
    }
    proof {
        assert(chars@.take(chars.len() as int) =~= chars@);
    }
    if balance != 0 {
        Err(complaint(open))
    } else {
        Ok(())
    }
}

/// The first complaint about the brackets of a text, if there is one:
/// round, then square, then curly.
pub open spec fn bracket_complaint(s: Seq<char>) -> Option<Seq<char>> {
    if !balanced(s, '(', ')') {
        Some(unbalanced('('))
    } else if !balanced(s, '[', ']') {
        Some(unbalanced('['))
    } else if !balanced(s, '{', '}') {
        Some(unbalanced('{'))
    } else {
        None
    }
}

/// The first complaint about the brackets of `content`, if there is one.
pub fn check_brackets(content: &str) -> (out: Option<String>)
    ensures
        out.deep_view() == bracket_complaint(content@),
{
    match check_string_balance(content, '(', ')') {
        Err(message) => Some(message),
        Ok(_) => match check_string_balance(content, '[', ']') {
            Err(message) => Some(message),
            Ok(_) => match check_string_balance(content, '{', '}') {
                Err(message) => Some(message),
                Ok(_) => None,
            },
        },
    }
}

/// Replaces a passage of a file by another, wherever it occurs.
#[derive(Debug, Clone, Copy)]
pub struct ReplaceContentTool;

impl ReplaceContentTool {
    /// The answer to an old content with unbalanced brackets.
    pub open spec fn old_rejected(complaint: Seq<char>, old_content: Seq<char>) -> Seq<char> {
        complaint + " "@ + old_content
            + " [in old content]- Please make sure to replace entire logical blocks of code."@
    }

    /// The answer to a new content with unbalanced brackets.
    pub open spec fn new_rejected(complaint: Seq<char>, new_content: Seq<char>) -> Seq<char> {
        complaint + " "@ + new_content
            + " [in new content] - Please make sure to replace entire logical blocks of code."@
    }

    /// The first step for a file, the passage to replace and its
    /// replacement: a complaint where either has unbalanced brackets, else
    /// the read of the file.
    pub open spec fn requested(
        path: Seq<char>,
        old_content: Seq<char>,
        new_content: Seq<char>,
    ) -> StepView {
        match bracket_complaint(old_content) {
            Some(complaint) => StepView::Reply(Self::old_rejected(complaint, old_content)),
            None => match bracket_complaint(new_content) {
                Some(complaint) => StepView::Reply(Self::new_rejected(complaint, new_content)),
                None => StepView::Perform(
                    EffectView::ReadFile { path },
                    PendingView::ReplaceRead { path, old_content, new_content },
                ),
            },
        }
    }

    /// The pattern that matches `old_content` literally, line breaks
    /// included.
    pub open spec fn pattern_for(old_content: Seq<char>) -> Seq<char> {
        "(?s)"@ + escaped(old_content)
    }

    /// The answer where the pattern does not compile.
    pub open spec fn pattern_rejected(message: Seq<char>) -> StepView {
        StepView::Reply("[Error] Failed to create regex pattern: "@ + message)
    }

    /// The answer where the passage does not occur in the file.
    pub open spec fn passage_missing(path: Seq<char>) -> StepView {
        StepView::Reply(
            "[Error] Old content not found in file: "@ + path
                + " - make sure it's an exact match including whitespace. Show file again to know what to replace."@,
        )
    }

    /// The write of the file with the passage replaced.
    pub open spec fn rewrite(path: Seq<char>, updated: Seq<char>) -> StepView {
        StepView::Perform(
            EffectView::WriteFile { path, content: updated },
            PendingView::ReplaceWrite { path },
        )
    }

    /// The step for the content of the file: the write of the content with
    /// every occurrence of the passage replaced, or why there is none.
    pub open spec fn edited(
        path: Seq<char>,
        old_content: Seq<char>,
        new_content: Seq<char>,
        content: Seq<char>,
    ) -> StepView {
        let pattern = Self::pattern_for(old_content);
        match pattern_error(pattern) {
            Some(message) => Self::pattern_rejected(message),
            None => if pattern_finds(pattern, content) {
                Self::rewrite(path, pattern_replaced(pattern, content, new_content))
            } else {
                Self::passage_missing(path)
            },
        }
    }

    /// The step after the read of the file.
    pub open spec fn content_read(
        path: Seq<char>,
        old_content: Seq<char>,
        new_content: Seq<char>,
        outcome: OutcomeView,
    ) -> StepView {
        match outcome {
            OutcomeView::Text(content) => Self::edited(path, old_content, new_content, content),
            OutcomeView::Missing(message) => if old_content.len() == 0 {
                StepView::Perform(
                    EffectView::WriteFile { path, content: new_content },
                    PendingView::ReplaceCreate { path },
                )
            } else {
                StepView::Reply("[Error] File not found: "@ + path)
            },
            OutcomeView::Failed(message) => StepView::Reply(
                "[Error] Failed to read file: "@ + message,
            ),
            OutcomeView::Broken(message) => StepView::Reply(
                "[Error] Failed to read file: "@ + message,
            ),
            _ => StepView::Reply(unexpected_outcome()),
        }
    }

    /// The answer to the write after a replacement.
    pub open spec fn rewritten(path: Seq<char>, outcome: OutcomeView) -> Seq<char> {
        match outcome {
            OutcomeView::Done => "\u{2705} Successfully replaced content in "@ + path,
            _ => match failure_of(outcome) {
                Some(message) => "[Error] Failed to write file: "@ + message,
                None => unexpected_outcome(),
            },
        }
    }

    /// The answer to the write of a file that was missing.
    pub open spec fn newly_created(path: Seq<char>, outcome: OutcomeView) -> Seq<char> {
        match outcome {
            OutcomeView::Done => "\u{2705} Successfully created new file "@ + path,
            _ => match failure_of(outcome) {
                Some(message) => "[Error] Failed to create file: "@ + message,
                None => unexpected_outcome(),
            },
        }
    }

    /// The first step for a file, the passage to replace and its
    /// replacement.
    pub fn request(path: String, old_content: String, new_content: String) -> (out: Step)
        ensures
            out@ == Self::requested(path@, old_content@, new_content@),
    {
        match check_brackets(old_content.as_str()) {
            Some(complaint) => {
                return Step::Reply(
                    concat3(
                        concat2(complaint.as_str(), " ").as_str(),
                        old_content.as_str(),
                        " [in old content]- Please make sure to replace entire logical blocks of code.",
                    ),
                );
            },
            None => {},
        }
        match check_brackets(new_content.as_str()) {
            Some(complaint) => {
                return Step::Reply(
                    concat3(
                        concat2(complaint.as_str(), " ").as_str(),
                        new_content.as_str(),
                        " [in new content] - Please make sure to replace entire logical blocks of code.",
                    ),
                );
            },
            None => {},
        }
        let keep = path.clone();
        Step::Perform(
            Effect::ReadFile { path },
            Pending::ReplaceRead { path: keep, old_content, new_content },
        )
    }

    /// The answer where the pattern does not compile.
    pub fn reject_pattern(message: &str) -> (out: Step)
        ensures
            out@ == Self::pattern_rejected(message@),
    {
        Step::Reply(concat2("[Error] Failed to create regex pattern: ", message))
    }

    /// The answer where the passage does not occur in the file.
    pub fn report_missing(path: &str) -> (out: Step)
        ensures
            out@ == Self::passage_missing(path@),
    {
        Step::Reply(
            concat3(
                "[Error] Old content not found in file: ",
                path,
                " - make sure it's an exact match including whitespace. Show file again to know what to replace.",
            ),
        )
    }

    /// The write of the file with the passage replaced.
    pub fn write_back(path: String, updated: String) -> (out: Step)
        ensures
            out@ == Self::rewrite(path@, updated@),
    {
        let keep = path.clone();
        Step::Perform(
            Effect::WriteFile { path, content: updated },
            Pending::ReplaceWrite { path: keep },
        )
    }

    /// The step for the content of the file.
    pub fn edit(path: String, old_content: &str, new_content: &str, content: &str) -> (out: Step)
        ensures
            out@ == Self::edited(path@, old_content@, new_content@, content@),
    {
        let pattern = concat2("(?s)", escape(old_content).as_str());
        match compile_failure(pattern.as_str()) {
            Some(message) => Self::reject_pattern(message.as_str()),
            None => {
                if find(pattern.as_str(), content) {
                    Self::write_back(path, replace_all(pattern.as_str(), content, new_content))
                } else {
                    Self::report_missing(path.as_str())
                }
            },
        }
    }

    /// The step after the read of the file.
    pub fn after_read(
        path: String,
        old_content: String,
        new_content: String,
        outcome: Outcome,
    ) -> (out: Step)
        ensures
            out@ == Self::content_read(path@, old_content@, new_content@, outcome@),
    {
        match outcome {
            Outcome::Text(content) => Self::edit(
                path,
                old_content.as_str(),
                new_content.as_str(),
                content.as_str(),
            ),
            Outcome::Missing(message) => {
                if old_content.as_str().is_empty() {
                    let keep = path.clone();
                    Step::Perform(
                        Effect::WriteFile { path, content: new_content },
                        Pending::ReplaceCreate { path: keep },
                    )
                } else {
                    Step::Reply(concat2("[Error] File not found: ", path.as_str()))
                }
            },
            Outcome::Failed(message) => Step::Reply(
                concat2("[Error] Failed to read file: ", message.as_str()),
            ),
            Outcome::Broken(message) => Step::Reply(
                concat2("[Error] Failed to read file: ", message.as_str()),
            ),
            _ => Step::Reply(unexpected()),
        }
    }

    /// Answers to the write after a replacement.
    pub fn after_write(path: String, outcome: Outcome) -> (out: String)
        ensures
            out@ == Self::rewritten(path@, outcome@),
    {
        match outcome {
            Outcome::Done => concat2("\u{2705} Successfully replaced content in ", path.as_str()),
            other => match other.failure() {
                Some(message) => concat2("[Error] Failed to write file: ", message.as_str()),
                None => unexpected(),
            },
        }
    }

    /// Answers to the write of a file that was missing.
    pub fn after_create(path: String, outcome: Outcome) -> (out: String)
        ensures
            out@ == Self::newly_created(path@, outcome@),
    {
        match outcome {
            Outcome::Done => concat2("\u{2705} Successfully created new file ", path.as_str()),
            other => match other.failure() {
                Some(message) => concat2("[Error] Failed to create file: ", message.as_str()),
                None => unexpected(),
            },
        }
    }
}

impl Tool for ReplaceContentTool {
    open spec fn spec_name(&self) -> Seq<char> {
        "replace_content"@
    }

    open spec fn spec_description(&self) -> Seq<char> {
        "Replaces existing content in a file with new content by searching for the old content. Use this for precise content-based editing. Please replace entire functions or code blocks at onces to avoid silly mistakes with closing parenthesis & brackets."@
    }

    open spec fn spec_parameters(&self) -> Seq<(Seq<char>, Seq<char>)> {
        seq![
            ("filepath"@, "string"@),
            ("old_content"@, "string"@),
            ("new_content"@, "optional string"@),
        ]
    }

    open spec fn spec_run(&self, args: Seq<(Seq<char>, Seq<char>)>, is_headless: bool) -> StepView {
        match required_text(args, "filepath"@) {
            Ok(path) => match required_text(args, "old_content"@) {
                Ok(old_content) => Self::requested(
                    path,
                    old_content,
                    optional_text(args, "new_content"@, ""@),
                ),
                Err(answer) => StepView::Reply(answer),
            },
            Err(answer) => StepView::Reply(answer),
        }
    }

    fn name(&self) -> (out: &'static str) {
        "replace_content"
    }

    fn description(&self) -> (out: &'static str) {
        "Replaces existing content in a file with new content by searching for the old content. Use this for precise content-based editing. Please replace entire functions or code blocks at onces to avoid silly mistakes with closing parenthesis & brackets."
    }

    fn parameters(&self) -> (out: Vec<(&'static str, &'static str)>) {
        let mut params: Vec<(&'static str, &'static str)> = Vec::new();
        params.push((ParamName::FilePath.as_str(), "string"));
        params.push(("old_content", "string"));
        params.push(("new_content", "optional string"));
        params
    }

    fn run(&self, params: &ToolParams, settings: ExecuteCommandSettings) -> (out: Step) {
        let path = match params.get_string(ParamName::FilePath.as_str()) {
            Ok(path) => path,
            Err(answer) => {
                return Step::Reply(answer);
            },
        };
        let old_content = match params.get_string("old_content") {
            Ok(old_content) => old_content,
            Err(answer) => {
                return Step::Reply(answer);
            },
        };
        let new_content = params.get_string_optional("new_content", "");
        Self::request(path, old_content, new_content)
    }
}

} // verus!
