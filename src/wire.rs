//! JSON text on the wire: serde_json parses and prints it, and the library
//! walks the parsed value into its own [`Json`] tree and back.

use vstd::prelude::*;

use crate::json::Json;

verus! {

#[verifier::external_type_specification]
#[verifier::external_body]
pub struct ExValue(serde_json::Value);

/// One level of a serde_json value, its children still serde_json values.
pub enum Node {
    Null,
    Bool(bool),
    Number(String),
    Str(String),
    Array(Vec<serde_json::Value>),
    Object(Vec<(String, serde_json::Value)>),
}

/// Whether serde_json reads a text as one JSON document: its syntax, no
/// trailing characters, nesting within its limit of 128.
pub uninterp spec fn json_accepts(text: Seq<char>) -> bool;

/// Whether serde_json reads a text as one JSON number.
pub uninterp spec fn json_number_accepts(text: Seq<char>) -> bool;

/// Relies on `serde_json::from_str::<Value>`: the text read as one JSON
/// document, or `None` where serde_json refuses it (bad syntax, trailing
/// characters, nesting deeper than its limit of 128).
#[verifier::external_body]
fn parse_value(text: &str) -> (r: Option<serde_json::Value>)
    ensures
        r is Some <==> json_accepts(text@),
{
    serde_json::from_str::<serde_json::Value>(text).ok()
}

/// Relies on the variants of `serde_json::Value`, `Number`'s `Display` and
/// `Map::into_iter`: opens one level of a value.
#[verifier::external_body]
fn open_value(v: serde_json::Value) -> (r: Node) {
    match v {
        serde_json::Value::Null => Node::Null,
        serde_json::Value::Bool(b) => Node::Bool(b),
        serde_json::Value::Number(n) => Node::Number(n.to_string()),
        serde_json::Value::String(s) => Node::Str(s),
        serde_json::Value::Array(a) => Node::Array(a),
        serde_json::Value::Object(m) => Node::Object(m.into_iter().collect()),
    }
}

/// Relies on the variants of `serde_json::Value`, `from_str::<Number>` and
/// `Map`'s `FromIterator`: closes one level of a value; `None` where the text
/// of a number is no JSON number.
#[verifier::external_body]
fn close_value(n: Node) -> (r: Option<serde_json::Value>)
    ensures
        match n {
            Node::Number(t) => r is Some <==> json_number_accepts(t@),
            _ => r is Some,
        },
{
    match n {
        Node::Null => Some(serde_json::Value::Null),
        Node::Bool(b) => Some(serde_json::Value::Bool(b)),
        Node::Number(t) => match serde_json::from_str::<serde_json::Number>(&t) {
            Ok(x) => Some(serde_json::Value::Number(x)),
            Err(_) => None,
        },
        Node::Str(s) => Some(serde_json::Value::String(s)),
        Node::Array(a) => Some(serde_json::Value::Array(a)),
        Node::Object(e) => Some(serde_json::Value::Object(e.into_iter().collect())),
    }
}

/// Relies on `Display for serde_json::Value`: the value as compact JSON text.
#[verifier::external_body]
fn value_text(v: &serde_json::Value) -> (r: String) {
    v.to_string()
}

/// How deep serde_json lets documents nest.
pub const MAX_DEPTH: u32 = 128;

/// Walks a parsed value into the library's tree, at most `depth` levels deep.
fn tree_of(v: serde_json::Value, depth: u32) -> (r: Option<Json>)
    decreases depth,
{
    if depth == 0 {
        return None;
    }
    match open_value(v) {
        Node::Null => Some(Json::Null),
        Node::Bool(b) => Some(Json::Bool(b)),
        Node::Number(t) => Some(Json::Number(t)),
        Node::Str(s) => Some(Json::Str(s)),
        Node::Array(items) => {
            let mut items = items;
            let mut reversed: Vec<Json> = Vec::new();
            while items.len() > 0
                invariant
                    depth > 0,
                decreases items@.len(),
            {
                let item = items.pop().unwrap();
                match tree_of(item, depth - 1) {
                    Some(j) => reversed.push(j),
                    None => {
                        return None;
                    },
                }
            }
            let mut out: Vec<Json> = Vec::new();
            while reversed.len() > 0
                decreases reversed@.len(),
            {
                out.push(reversed.pop().unwrap());
            }
            Some(Json::Array(out))
        },
        Node::Object(entries) => {
            let mut entries = entries;
            let mut reversed: Vec<(String, Json)> = Vec::new();
            while entries.len() > 0
                invariant
                    depth > 0,
                decreases entries@.len(),
            {
                let (key, item) = entries.pop().unwrap();
                match tree_of(item, depth - 1) {
                    Some(j) => reversed.push((key, j)),
                    None => {
                        return None;
                    },
                }
            }
            let mut out: Vec<(String, Json)> = Vec::new();
            while reversed.len() > 0
                decreases reversed@.len(),
            {
                out.push(reversed.pop().unwrap());
            }
            Some(Json::Object(out))
        },
    }
}

/// Whether the text of every number in a tree is a JSON number.
pub open spec fn numbers_ok(j: Json) -> bool
    decreases j,
{
    match j {
        Json::Number(t) => json_number_accepts(t@),
        Json::Array(items) => forall|i: int| 0 <= i < items@.len() ==> numbers_ok(#[trigger] items@[i]),
        Json::Object(e) => forall|i: int| 0 <= i < e@.len() ==> numbers_ok((#[trigger] e@[i]).1),
        _ => true,
    }
}

/// Walks the library's tree into a value serde_json can print; `None` where
/// the text of a number is no JSON number.
fn value_of(j: &Json) -> (r: Option<serde_json::Value>)
    ensures
        r is Some <==> numbers_ok(*j),
    decreases j,
{
    match j {
        Json::Null => close_value(Node::Null),
        Json::Bool(b) => close_value(Node::Bool(*b)),
        Json::Number(t) => close_value(Node::Number(t.clone())),
        Json::Str(s) => close_value(Node::Str(s.clone())),
        Json::Array(items) => {
            let mut out: Vec<serde_json::Value> = Vec::new();
            let mut i: usize = 0;
            while i < items.len()
                invariant
                    i <= items@.len(),
                    *j == Json::Array(*items),
                    forall|a: int| 0 <= a < i ==> numbers_ok(#[trigger] items@[a]),
                decreases items@.len() - i,
            {
                proof {
                    assert(decreases_to!(*j => (*j)->Array_0));
                    assert(decreases_to!(*items => items[i as int]));
                    assert(decreases_to!(*j => items[i as int]));
                }
                match value_of(&items[i]) {
                    Some(v) => out.push(v),
                    None => {
                        assert(!numbers_ok(items@[i as int]));
                        assert(!numbers_ok(Json::Array(*items)));
                        return None;
                    },
                }
                i = i + 1;
            }
            assert(numbers_ok(Json::Array(*items)));
            close_value(Node::Array(out))
        },
        Json::Object(entries) => {
            let mut out: Vec<(String, serde_json::Value)> = Vec::new();
            let mut i: usize = 0;
            while i < entries.len()
                invariant
                    i <= entries@.len(),
                    *j == Json::Object(*entries),
                    forall|a: int| 0 <= a < i ==> numbers_ok((#[trigger] entries@[a]).1),
                decreases entries@.len() - i,
            {
                proof {
                    assert(decreases_to!(*j => (*j)->Object_0));
                    assert(decreases_to!(*entries => entries[i as int]));
                    assert(decreases_to!(entries[i as int] => entries[i as int].1));
                    assert(decreases_to!(*j => entries[i as int].1));
                }
                match value_of(&entries[i].1) {
                    Some(v) => out.push((entries[i].0.clone(), v)),
                    None => {
                        assert(!numbers_ok(entries@[i as int].1));
                        assert(!numbers_ok(*j));
                        return None;
                    },
                }
                i = i + 1;
            }
            assert(numbers_ok(*j));
            close_value(Node::Object(out))
        },
    }
}

/// Reads a response body. Text that is not one JSON document, or that nests
/// deeper than serde_json allows, gives `None`.
pub fn parse_json(text: &str) -> (r: Option<Json>)
    ensures
        r is Some ==> json_accepts(text@),
{
    match parse_value(text) {
        Some(v) => tree_of(v, MAX_DEPTH),
        None => None,
    }
}

/// Reads a response body for [`crate::response::classify`]: text that is not
/// JSON counts as `null`, so that only a well-formed error body is taken for
/// a server-reported error.
pub fn body_json(text: &str) -> (r: Json)
    ensures
        !json_accepts(text@) ==> r == Json::Null,
{
    match parse_json(text) {
        Some(j) => j,
        None => Json::Null,
    }
}

/// Writes a request body as compact JSON text; `None` where the text of a
/// number in the tree is no JSON number.
pub fn json_text(j: &Json) -> (r: Option<String>)
    ensures
        r is Some <==> numbers_ok(*j),
{
    match value_of(j) {
        Some(v) => Some(value_text(&v)),
        None => None,
    }
}

} // verus!
