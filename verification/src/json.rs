//! What the engine needs from JSON texts: the entries of an argument object
//! and the stored list of prompts. The texts are read and written by
//! `serde_json`; the decisions taken on what it returns are verified here.

use vstd::prelude::*;

verus! {

/// One value of a JSON object of arguments. A number is held by its digits
/// and a nested value by its text, as JSON writes them.
#[derive(Debug, PartialEq, Eq)]
pub enum JsonValue {
    /// `null`.
    Null,
    /// A boolean.
    Bool(bool),
    /// A number: its digits.
    Number(String),
    /// A string: its characters, unquoted.
    Text(String),
    /// An array: its compact JSON text.
    Array(String),
    /// An object: its compact JSON text.
    Object(String),
}

/// The mathematical value of a [`JsonValue`].
pub enum JsonValueView {
    Null,
    Bool(bool),
    Number(Seq<char>),
    Text(Seq<char>),
    Array(Seq<char>),
    Object(Seq<char>),
}

impl View for JsonValue {
    type V = JsonValueView;

    open spec fn view(&self) -> JsonValueView {
        match self {
            JsonValue::Null => JsonValueView::Null,
            JsonValue::Bool(b) => JsonValueView::Bool(*b),
            JsonValue::Number(s) => JsonValueView::Number(s@),
            JsonValue::Text(s) => JsonValueView::Text(s@),
            JsonValue::Array(s) => JsonValueView::Array(s@),
            JsonValue::Object(s) => JsonValueView::Object(s@),
        }
    }
}

impl DeepView for JsonValue {
    type V = JsonValueView;

    open spec fn deep_view(&self) -> JsonValueView {
        self@
    }
}

/// The entries of the JSON object that `payload` spells, each key with its
/// value, or `None` where `payload` is not the text of a JSON object.
pub uninterp spec fn json_object_entries(payload: Seq<char>) -> Option<
    Seq<(Seq<char>, JsonValueView)>,
>;

/// Reads `payload` as a JSON object and hands out its entries.
///
/// Trusted: `serde_json::from_str` at the type `serde_json::Value`. The
/// result is `Some` exactly when the text parses and its value is an object;
/// the entries come in the order in which the object's map hands them out,
/// each value variant by variant. The digits of a number and the text of an
/// array or an object are what the `Display` of `serde_json` writes. The
/// contract gives the result a name and claims nothing else of it.
#[verifier::external_body]
pub(crate) fn parse_object(payload: &str) -> (out: Option<Vec<(String, JsonValue)>>)
    ensures
        out.deep_view() == json_object_entries(payload@),
{
    let Ok(serde_json::Value::Object(map)) = serde_json::from_str(payload) else {
        return None;
    };
    Some(map.into_iter().map(|(key, value)| (key, match value {
        serde_json::Value::Null => JsonValue::Null,
        serde_json::Value::Bool(b) => JsonValue::Bool(b),
        serde_json::Value::Number(n) => JsonValue::Number(n.to_string()),
        serde_json::Value::String(s) => JsonValue::Text(s),
        array @ serde_json::Value::Array(_) => JsonValue::Array(array.to_string()),
        object @ serde_json::Value::Object(_) => JsonValue::Object(object.to_string()),
    })).collect())
}

/// The list of strings that `content` spells as a JSON array, or `None`
/// where `content` is not the text of such an array.
pub uninterp spec fn json_string_list(content: Seq<char>) -> Option<Seq<Seq<char>>>;

/// Reads `content` as a JSON array of strings.
///
/// Trusted: `serde_json::from_str` at the type `Vec<String>`; an error
/// becomes `None`. The contract gives the result a name and claims nothing
/// else of it.
#[verifier::external_body]
pub(crate) fn parse_string_list(content: &str) -> (out: Option<Vec<String>>)
    ensures
        out.deep_view() == json_string_list(content@),
{
    serde_json::from_str::<Vec<String>>(content).ok()
}

/// The JSON text of the array that holds `items`, or `None` where
/// `serde_json` reports an error.
pub uninterp spec fn json_of_string_list(items: Seq<Seq<char>>) -> Option<Seq<char>>;

/// Writes `items` as a JSON array of strings.
///
/// Trusted: `serde_json::to_string` at the type `Vec<String>`; an error
/// becomes `None`. The contract gives the result a name and claims nothing
/// else of it.
#[verifier::external_body]
pub(crate) fn render_string_list(items: &Vec<String>) -> (out: Option<String>)
    ensures
        out.deep_view() == json_of_string_list(items.deep_view()),
{
    serde_json::to_string(items).ok()
}

/// The text that a tool receives for a JSON value.
pub open spec fn coerced(value: JsonValueView) -> Seq<char> {
    match value {
        JsonValueView::Null => "null"@,
        JsonValueView::Bool(b) => if b {
            "true"@
        } else {
            "false"@
        },
        JsonValueView::Number(digits) => digits,
        JsonValueView::Text(text) => text,
        JsonValueView::Array(json) => json,
        JsonValueView::Object(json) => json,
    }
}

/// Turns a JSON value into the text that a tool receives: a string as it
/// is, a number by its digits, a boolean as `true` or `false`, `null` as
/// `null`, an array and an object by their JSON text. What kind of value it
/// was is lost on the way.
pub fn coerce(value: &JsonValue) -> (out: String)
    ensures
        out@ == coerced(value@),
{
    match value {
        JsonValue::Null => "null".to_owned(),
        JsonValue::Bool(b) => if *b {
            "true".to_owned()
        } else {
            "false".to_owned()
        },
        JsonValue::Number(digits) => digits.clone(),
        JsonValue::Text(text) => text.clone(),
        JsonValue::Array(json) => json.clone(),
        JsonValue::Object(json) => json.clone(),
    }
}

} // verus!
