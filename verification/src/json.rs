//! Reading a JSON document through `serde_json`: whether it parses, the value
//! that a JSON pointer selects in it, and its pretty-printed text.
//!
//! The document itself never leaves `serde_json`; what the rest of the crate
//! reads of it is a `JsonNode`, which keeps the kind of the selected value and
//! the scalars that the crate looks at.
use vstd::prelude::*;

verus! {

/// The value that a JSON pointer selects, as far as this crate reads it.
#[derive(Debug, PartialEq, Eq)]
pub enum JsonNode {
    Null,
    Bool(bool),
    Number,
    Text(String),
    Array,
    Object,
}

/// The mathematical form of a `JsonNode`.
pub enum JsonNodeView {
    Null,
    Bool(bool),
    Number,
    Text(Seq<char>),
    Array,
    Object,
}

impl View for JsonNode {
    type V = JsonNodeView;

    open spec fn view(&self) -> JsonNodeView {
        match self {
            JsonNode::Null => JsonNodeView::Null,
            JsonNode::Bool(b) => JsonNodeView::Bool(*b),
            JsonNode::Number => JsonNodeView::Number,
            JsonNode::Text(s) => JsonNodeView::Text(s@),
            JsonNode::Array => JsonNodeView::Array,
            JsonNode::Object => JsonNodeView::Object,
        }
    }
}

/// The view of an optional node.
pub open spec fn node_view(n: Option<JsonNode>) -> Option<JsonNodeView> {
    match n {
        Some(node) => Some(node@),
        None => None,
    }
}

/// The view of an optional string.
pub open spec fn opt_string_view(s: Option<String>) -> Option<Seq<char>> {
    match s {
        Some(t) => Some(t@),
        None => None,
    }
}

/// The view of a string result.
pub open spec fn string_result_view(r: Result<String, String>) -> Result<Seq<char>, Seq<char>> {
    match r {
        Ok(t) => Ok(t@),
        Err(e) => Err(e@),
    }
}

/// The boolean that a node holds, as `serde_json::Value::as_bool` gives it.
pub open spec fn node_bool(n: Option<JsonNodeView>) -> Option<bool> {
    match n {
        Some(JsonNodeView::Bool(b)) => Some(b),
        _ => None,
    }
}

/// The string that a node holds, as `serde_json::Value::as_str` gives it.
pub open spec fn node_str(n: Option<JsonNodeView>) -> Option<Seq<char>> {
    match n {
        Some(JsonNodeView::Text(s)) => Some(s),
        _ => None,
    }
}

/// The boolean that a node holds, if it is one.
pub fn as_bool(n: &Option<JsonNode>) -> (r: Option<bool>)
    ensures
        r == node_bool(node_view(*n)),
{
    match n {
        Some(JsonNode::Bool(b)) => Some(*b),
        _ => None,
    }
}

/// The string that a node holds, if it is one.
pub fn as_str(n: &Option<JsonNode>) -> (r: Option<&str>)
    ensures
        match r {
            Some(s) => node_str(node_view(*n)) == Some(s@),
            None => node_str(node_view(*n)) is None,
        },
{
    match n {
        Some(JsonNode::Text(s)) => Some(s.as_str()),
        _ => None,
    }
}

/// The text of the error that `serde_json::from_slice` reports for `bytes`
/// when they are not one JSON value, and `None` when they are.
pub uninterp spec fn json_syntax_error(bytes: Seq<u8>) -> Option<Seq<char>>;

/// The node that the JSON pointer `pointer` selects in the value that
/// `serde_json::from_slice` reads from `bytes` (`serde_json::Value::pointer`).
pub uninterp spec fn json_node_at(bytes: Seq<u8>, pointer: Seq<char>) -> Option<JsonNodeView>;

/// What `serde_json::to_string_pretty` gives for the value that
/// `serde_json::from_slice` reads from `bytes`.
pub uninterp spec fn json_pretty(bytes: Seq<u8>) -> Result<Seq<char>, Seq<char>>;

/// Calls `serde_json::from_slice::<serde_json::Value>` and keeps the
/// `Display` text of its error. Claimed: the result is a function of the
/// bytes alone, named `json_syntax_error`.
#[verifier::external_body]
pub(crate) fn json_parse_error(bytes: &[u8]) -> (r: Option<String>)
    ensures
        opt_string_view(r) == json_syntax_error(bytes@),
{
    serde_json::from_slice::<serde_json::Value>(bytes).err().map(|error| error.to_string())
}

/// Calls `serde_json::from_slice::<serde_json::Value>` and then
/// `serde_json::Value::pointer` on the value read, and tells the selected
/// value's variant apart, keeping a boolean or a string. Claimed: the result
/// is a function of the bytes and the pointer alone, named `json_node_at`,
/// and is `None` when the bytes do not parse (the body returns early then).
#[verifier::external_body]
pub(crate) fn json_lookup(bytes: &[u8], pointer: &str) -> (r: Option<JsonNode>)
    ensures
        node_view(r) == json_node_at(bytes@, pointer@),
        json_syntax_error(bytes@) is Some ==> r is None,
{
    let value: serde_json::Value = serde_json::from_slice(bytes).ok()?;
    Some(match value.pointer(pointer)? {
        serde_json::Value::Null => JsonNode::Null,
        serde_json::Value::Bool(b) => JsonNode::Bool(*b),
        serde_json::Value::Number(_) => JsonNode::Number,
        serde_json::Value::String(s) => JsonNode::Text(s.clone()),
        serde_json::Value::Array(_) => JsonNode::Array,
        serde_json::Value::Object(_) => JsonNode::Object,
    })
}

/// Calls `serde_json::from_slice::<serde_json::Value>` and then
/// `serde_json::to_string_pretty` on the value read, keeping the `Display`
/// text of an error. Claimed: the result is a function of the bytes alone,
/// named `json_pretty`, and printing a value that was read never fails
/// (`to_string_pretty` writes into a `Vec`, and every key of a map read from
/// JSON is a string). Nothing is stated of the layout of the text.
#[verifier::external_body]
pub(crate) fn json_pretty_text(bytes: &[u8]) -> (r: Result<String, String>)
    ensures
        string_result_view(r) == json_pretty(bytes@),
        json_syntax_error(bytes@) is None ==> r is Ok,
{
    let value: serde_json::Value = serde_json::from_slice(bytes).map_err(|e| e.to_string())?;
    serde_json::to_string_pretty(&value).map_err(|error| error.to_string())
}

} // verus!
