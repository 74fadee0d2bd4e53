//! Searching and replacing with the `regex` crate. The crate compiles and
//! runs the patterns; what the tools make of its answers is verified where
//! they use them.

use vstd::prelude::*;

verus! {

/// The characters that mean something in a pattern and are escaped to
/// stand for themselves.
pub open spec fn is_meta_character(c: char) -> bool {
    ||| c == '\\'
    ||| c == '.'
    ||| c == '+'
    ||| c == '*'
    ||| c == '?'
    ||| c == '('
    ||| c == ')'
    ||| c == '|'
    ||| c == '['
    ||| c == ']'
    ||| c == '{'
    ||| c == '}'
    ||| c == '^'
    ||| c == '$'
    ||| c == '#'
    ||| c == '&'
    ||| c == '-'
    ||| c == '~'
}

/// `text` with a backslash before each of its meta characters.
pub open spec fn escaped(text: Seq<char>) -> Seq<char>
    decreases text.len(),
{
    if text.len() == 0 {
        Seq::empty()
    } else if is_meta_character(text.last()) {
        escaped(text.drop_last()).push('\\').push(text.last())
    } else {
        escaped(text.drop_last()).push(text.last())
    }
}

/// The message of the error that compiling `pattern` ends in, or `None`
/// where `pattern` compiles.
pub uninterp spec fn pattern_error(pattern: Seq<char>) -> Option<Seq<char>>;

/// Whether `pattern` matches somewhere in `haystack`.
pub uninterp spec fn pattern_finds(pattern: Seq<char>, haystack: Seq<char>) -> bool;

/// `haystack` with every match of `pattern` replaced by the expansion of
/// `replacement`.
pub uninterp spec fn pattern_replaced(
    pattern: Seq<char>,
    haystack: Seq<char>,
    replacement: Seq<char>,
) -> Seq<char>;

/// Escapes `text` so that, as a pattern, it stands for itself.
///
/// Trusted: `regex::escape`, which walks through the characters and puts a
/// backslash before each of the eighteen meta characters listed above.
#[verifier::external_body]
pub(crate) fn escape(text: &str) -> (out: String)
    ensures
        out@ == escaped(text@),
{
    regex::escape(text)
}

/// Tries to compile `pattern` and gives the message of the error, if there
/// is one.
///
/// Trusted: `regex::Regex::new`, and the `Display` of its error. Whether a
/// pattern compiles, and with what message it fails, depends on the pattern
/// alone; the contract gives that result a name.
#[verifier::external_body]
pub(crate) fn compile_failure(pattern: &str) -> (out: Option<String>)
    ensures
        out.deep_view() == pattern_error(pattern@),
{
    match regex::Regex::new(pattern) {
        Ok(_) => None,
        Err(error) => Some(error.to_string()),
    }
}

/// Whether `pattern`, which compiles, matches somewhere in `haystack`.
///
/// Trusted: `regex::Regex::is_match` on the pattern compiled by
/// `regex::Regex::new`; the contract gives the result a name.
#[verifier::external_body]
pub(crate) fn find(pattern: &str, haystack: &str) -> (out: bool)
    requires
        pattern_error(pattern@) is None,
    ensures
        out == pattern_finds(pattern@, haystack@),
{
    match regex::Regex::new(pattern) {
        Ok(re) => re.is_match(haystack),
        Err(_) => false,
    }
}

/// Replaces every match of `pattern`, which compiles, in `haystack`.
///
/// Trusted: `regex::Regex::replace_all` on the pattern compiled by
/// `regex::Regex::new`, with a string as the replacement, in which `$`
/// refers to groups of the match. The contract gives the result a name.
#[verifier::external_body]
pub(crate) fn replace_all(pattern: &str, haystack: &str, replacement: &str) -> (out: String)
    requires
        pattern_error(pattern@) is None,
    ensures
        out@ == pattern_replaced(pattern@, haystack@, replacement@),
{
    match regex::Regex::new(pattern) {
        Ok(re) => re.replace_all(haystack, replacement).into_owned(),
        Err(_) => haystack.to_owned(),
    }
}

} // verus!
