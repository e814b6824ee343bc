//! Reading the chat-completion reply: either the translated text or a classified failure.
use vstd::prelude::*;
use crate::error::TranslateError;

verus! {

/// What a JSON document holds. Object members are keyed by name (a later duplicate
/// replaces an earlier one); a number is held as `serde_json` writes it.
pub enum JsonTree {
    Null,
    Bool(bool),
    Number(Seq<char>),
    Text(Seq<char>),
    Array(Seq<JsonTree>),
    Object(Map<Seq<char>, JsonTree>),
}

#[verifier::external_type_specification]
#[verifier::external_body]
pub struct ExJsonValue(serde_json::Value);

/// The document that a `serde_json::Value` holds.
pub uninterp spec fn json_tree(v: serde_json::Value) -> JsonTree;

/// The document that a text holds when read as JSON, or `None` where it is not JSON.
pub uninterp spec fn parsed_json(s: Seq<char>) -> Option<JsonTree>;

/// A document written out as compact JSON text.
pub uninterp spec fn json_rendering(t: JsonTree) -> Seq<char>;

/// Relies on `serde_json::from_str::<Value>`: the document of a JSON text, if it is one.
#[verifier::external_body]
fn parse_json(s: &str) -> (r: Option<serde_json::Value>)
    ensures
        match r {
            Some(v) => parsed_json(s@) == Some(json_tree(v)),
            None => parsed_json(s@) is None,
        },
{
    serde_json::from_str::<serde_json::Value>(s).ok()
}

/// Relies on `serde_json::Value::get` with a `&str` index: the member named `key`
/// of an object; `None` for a missing member or a value that is not an object.
#[verifier::external_body]
fn json_member<'a>(v: &'a serde_json::Value, key: &str) -> (r: Option<&'a serde_json::Value>)
    ensures
        match (json_tree(*v), r) {
            (JsonTree::Object(m), Some(x)) => m.contains_key(key@) && json_tree(*x) == m[key@],
            (JsonTree::Object(m), None) => !m.contains_key(key@),
            (_, x) => x is None,
        },
{
    v.get(key)
}

/// Relies on `serde_json::Value::get` with a `usize` index: the element at `i` of
/// an array; `None` past its end or for a value that is not an array.
#[verifier::external_body]
fn json_element<'a>(v: &'a serde_json::Value, i: usize) -> (r: Option<&'a serde_json::Value>)
    ensures
        match (json_tree(*v), r) {
            (JsonTree::Array(s), Some(x)) => i < s.len() && json_tree(*x) == s[i as int],
            (JsonTree::Array(s), None) => i >= s.len(),
            (_, x) => x is None,
        },
{
    v.get(i)
}

/// Relies on `serde_json::Value::as_str`: the text of a string value, `None` for any other.
#[verifier::external_body]
fn json_text(v: &serde_json::Value) -> (r: Option<String>)
    ensures
        match (json_tree(*v), r) {
            (JsonTree::Text(t), Some(s)) => s@ == t,
            (JsonTree::Text(_), None) => false,
            (_, x) => x is None,
        },
{
    v.as_str().map(|s| s.to_owned())
}

/// Relies on `Display` for `serde_json::Value` (through `to_string`): its compact JSON text.
#[verifier::external_body]
fn render_json(v: &serde_json::Value) -> (r: String)
    ensures
        r@ == json_rendering(json_tree(*v)),
{
    v.to_string()
}

/// The member named `key` of an object document.
pub open spec fn member(t: JsonTree, key: Seq<char>) -> Option<JsonTree> {
    match t {
        JsonTree::Object(m) => if m.contains_key(key) {
            Some(m[key])
        } else {
            None
        },
        _ => None,
    }
}

/// The element at `i` of an array document.
pub open spec fn element(t: JsonTree, i: int) -> Option<JsonTree> {
    match t {
        JsonTree::Array(s) => if 0 <= i < s.len() {
            Some(s[i])
        } else {
            None
        },
        _ => None,
    }
}

/// The text of a string document.
pub open spec fn text_of(t: JsonTree) -> Option<Seq<char>> {
    match t {
        JsonTree::Text(s) => Some(s),
        _ => None,
    }
}

/// The text at `choices[0].message.content`, where that path leads to a string.
pub open spec fn reply_content(t: JsonTree) -> Option<Seq<char>> {
    match member(t, "choices"@) {
        Some(choices) => match element(choices, 0) {
            Some(first) => match member(first, "message"@) {
                Some(message) => match member(message, "content"@) {
                    Some(content) => text_of(content),
                    None => None,
                },
                None => None,
            },
            None => None,
        },
        None => None,
    }
}

/// Whether `r` is the outcome owed for a reply document: a top-level `error` member
/// fails the call with that member rendered; otherwise the text at
/// `choices[0].message.content` is the translation, and its absence a parse failure.
pub open spec fn reply_outcome(t: JsonTree, r: Result<String, TranslateError>) -> bool {
    match member(t, "error"@) {
        Some(e) => r matches Err(TranslateError::RemoteApi(m)) && m@ == json_rendering(e),
        None => match reply_content(t) {
            Some(c) => r matches Ok(s) && s@ == c,
            None => r == Err::<String, TranslateError>(TranslateError::ResponseParse),
        },
    }
}

/// Whether `r` is the outcome owed for a reply body: a body that is not JSON is a
/// parse failure; a JSON body is read as `reply_outcome` says.
pub open spec fn body_outcome(body: Seq<char>, r: Result<String, TranslateError>) -> bool {
    match parsed_json(body) {
        Some(t) => reply_outcome(t, r),
        None => r == Err::<String, TranslateError>(TranslateError::ResponseParse),
    }
}

/// The text at `choices[0].message.content` of a reply document, if it is a string there.
fn content_text(doc: &serde_json::Value) -> (r: Option<String>)
    ensures
        match (reply_content(json_tree(*doc)), r) {
            (Some(c), Some(s)) => s@ == c,
            (None, None) => true,
            _ => false,
        },
{
    let choices = json_member(doc, "choices")?;
    let first = json_element(choices, 0)?;
    let message = json_member(first, "message")?;
    let content = json_member(message, "content")?;
    json_text(content)
}

/// Interprets a parsed reply document: the translated text, or the failure it reports.
pub fn interpret_reply(doc: &serde_json::Value) -> (r: Result<String, TranslateError>)
    ensures
        reply_outcome(json_tree(*doc), r),
{
    if let Some(error) = json_member(doc, "error") {
        return Err(TranslateError::RemoteApi(render_json(error)));
    }
    match content_text(doc) {
        Some(text) => Ok(text),
        None => Err(TranslateError::ResponseParse),
    }
}

/// Reads a reply body: the translated text, or the failure the body shows.
pub fn read_reply(body: &str) -> (r: Result<String, TranslateError>)
    ensures
        body_outcome(body@, r),
{
    match parse_json(body) {
        Some(doc) => interpret_reply(&doc),
        None => Err(TranslateError::ResponseParse),
    }
}

} // verus!
