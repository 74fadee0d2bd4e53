//! The arguments of a tool invocation, by name.

use crate::text::{concat3, equal, text_result};
use vstd::prelude::*;

verus! {

/// The parameter names that several tools share.
#[derive(Debug, Clone, Copy, PartialEq, Eq, Hash, Structural)]
pub enum ParamName {
    FilePath,
    Dir,
    SearchString,
    PathPattern,
    Content,
}

impl ParamName {
    /// The name as the model writes it.
    pub open spec fn spec_str(&self) -> Seq<char> {
        match self {
            ParamName::FilePath => "filepath"@,
            ParamName::Dir => "dir"@,
            ParamName::SearchString => "search_string"@,
            ParamName::PathPattern => "path_pattern"@,
            ParamName::Content => "content"@,
        }
    }

    /// The name as the model writes it.
    pub fn as_str(&self) -> (out: &'static str)
        ensures
            out@ == self.spec_str(),
    {
        match self {
            ParamName::FilePath => "filepath",
            ParamName::Dir => "dir",
            ParamName::SearchString => "search_string",
            ParamName::PathPattern => "path_pattern",
            ParamName::Content => "content",
        }
    }
}

/// The value that `entries` holds for `key`: that of the last entry with
/// this key, as in a map filled entry by entry.
pub open spec fn lookup(entries: Seq<(Seq<char>, Seq<char>)>, key: Seq<char>) -> Option<Seq<char>>
    decreases entries.len(),
{
    if entries.len() == 0 {
        None
    } else if entries.last().0 == key {
        Some(entries.last().1)
    } else {
        lookup(entries.drop_last(), key)
    }
}

/// The answer of a tool that lacks the parameter `param`.
pub open spec fn missing_parameter(param: Seq<char>) -> Seq<char> {
    "[Error] Parameter '"@ + param + "' is required and must be a non-empty string."@
}

/// What [`ToolParams::get_string`] gives for `param`.
pub open spec fn required_text(entries: Seq<(Seq<char>, Seq<char>)>, param: Seq<char>) -> Result<
    Seq<char>,
    Seq<char>,
> {
    match lookup(entries, param) {
        Some(value) => if value.len() > 0 {
            Ok(value)
        } else {
            Err(missing_parameter(param))
        },
        None => Err(missing_parameter(param)),
    }
}

/// What [`ToolParams::get_string_optional`] gives for `param`.
pub open spec fn optional_text(
    entries: Seq<(Seq<char>, Seq<char>)>,
    param: Seq<char>,
    default: Seq<char>,
) -> Seq<char> {
    match lookup(entries, param) {
        Some(value) => value,
        None => default,
    }
}

/// The arguments of one tool invocation: names with their texts. Where a
/// name occurs twice, the later entry counts.
#[derive(Debug)]
pub struct ToolParams {
    args: Vec<(String, String)>,
}

impl View for ToolParams {
    type V = Seq<(Seq<char>, Seq<char>)>;

    closed spec fn view(&self) -> Seq<(Seq<char>, Seq<char>)> {
        self.args.deep_view()
    }
}

impl ToolParams {
    /// The arguments given by `args`, in that order.
    pub fn new(args: Vec<(String, String)>) -> (out: Self)
        ensures
            out@ == args.deep_view(),
    {
        ToolParams { args }
    }

    /// The text given for `param`, if any.
    pub fn get(&self, param: &str) -> (out: Option<&String>)
        ensures
            out.deep_view() == lookup(self@, param@),
    {
        let mut i: usize = self.args.len();
        proof {
            assert(self@.take(i as int) =~= self@);
        }
        while i > 0
            invariant
                i <= self.args.len(),
                lookup(self@, param@) == lookup(self@.take(i as int), param@),
            decreases i,
        {
            proof {
                assert(self@.take(i as int).drop_last() =~= self@.take(i as int - 1));
            }
            i -= 1;
            if equal(self.args[i].0.as_str(), param) {
                return Some(&self.args[i].1);
            }
        }
        None
    }

    /// The text of a required parameter: `Ok` with the text where it is
    /// given and not empty, else `Err` with the answer that tells the model
    /// what is missing.
    pub fn get_string(&self, param: &str) -> (out: Result<String, String>)
        ensures
            text_result(out) == required_text(self@, param@),
    {
        match self.get(param) {
            Some(value) => {
                if value.as_str().is_empty() {
                    Err(Self::missing(param))
                } else {
                    Ok(value.clone())
                }
            },
            None => Err(Self::missing(param)),
        }
    }

    /// The text of an optional parameter, or `default` where it is not given.
    pub fn get_string_optional(&self, param: &str, default: &str) -> (out: String)
        ensures
            out@ == optional_text(self@, param@, default@),
    {
        match self.get(param) {
            Some(value) => value.clone(),
            None => default.to_owned(),
        }
    }

    /// The number of entries.
    pub fn len(&self) -> (out: usize)
        ensures
            out == self@.len(),
    {
        self.args.len()
    }

    fn missing(param: &str) -> (out: String)
        ensures
            out@ == missing_parameter(param@),
    {
        concat3(
            "[Error] Parameter '",
            param,
            "' is required and must be a non-empty string.",
        )
    }
}

} // verus!
