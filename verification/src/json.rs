//! JSON documents as the library reads them.
//!
//! A document is parsed one level at a time: a [`JsonValue`] holds scalars
//! directly, and holds the members of arrays and objects as their own compact
//! JSON text, which is parsed again when it is read.

use vstd::prelude::*;
use serde_json::Value as V;
use self::JsonNumber::{Float, NegInt, PosInt};
use self::JsonValue::{Array, Bool, Null, Number, Object};

verus! {

/// A JSON number, as serde_json classifies it.
#[derive(Debug, Clone, PartialEq, Eq)]
pub enum JsonNumber {
    /// A non-negative integer that fits in a `u64`.
    PosInt(u64),
    /// A negative integer that fits in an `i64`.
    NegInt(i64),
    /// Any other number, by its compact text.
    Float(String),
}

/// One level of a parsed JSON document.
#[derive(Debug, Clone, PartialEq, Eq)]
pub enum JsonValue {
    Null,
    Bool(bool),
    Number(JsonNumber),
    String(String),
    /// The elements, each as compact JSON text.
    Array(Vec<String>),
    /// The members in the object's key order, each value as compact JSON text.
    Object(Vec<(String, String)>),
}

/// The mathematical model of one level of a JSON document.
pub enum JsonNode {
    Null,
    Bool(bool),
    PosInt(u64),
    NegInt(i64),
    Float(Seq<char>),
    Str(Seq<char>),
    Array(Seq<Seq<char>>),
    Object(Seq<(Seq<char>, Seq<char>)>),
}

/// The views of the entries of an object.
pub open spec fn entry_views(entries: Seq<(String, String)>) -> Seq<(Seq<char>, Seq<char>)> {
    entries.map_values(|e: (String, String)| (e.0@, e.1@))
}

/// The views of the elements of an array.
pub open spec fn element_views(elems: Seq<String>) -> Seq<Seq<char>> {
    elems.map_values(|e: String| e@)
}

impl View for JsonValue {
    type V = JsonNode;

    open spec fn view(&self) -> JsonNode {
        match self {
            JsonValue::Null => JsonNode::Null,
            JsonValue::Bool(b) => JsonNode::Bool(*b),
            JsonValue::Number(JsonNumber::PosInt(u)) => JsonNode::PosInt(*u),
            JsonValue::Number(JsonNumber::NegInt(i)) => JsonNode::NegInt(*i),
            JsonValue::Number(JsonNumber::Float(t)) => JsonNode::Float(t@),
            JsonValue::String(s) => JsonNode::Str(s@),
            JsonValue::Array(a) => JsonNode::Array(element_views(a@)),
            JsonValue::Object(o) => JsonNode::Object(entry_views(o@)),
        }
    }
}

/// What serde_json makes of `text`: the top level of the document, or the
/// text of the error it reports.
pub uninterp spec fn json_parse(text: Seq<char>) -> Result<JsonNode, Seq<char>>;

/// The top level of the JSON document `text`, if `text` is one.
pub open spec fn json_of(text: Seq<char>) -> Option<JsonNode> {
    match json_parse(text) {
        Ok(n) => Some(n),
        Err(_) => None,
    }
}

/// Parses `text` with `serde_json::from_str::<serde_json::Value>`; the result
/// is the top level of the value, with the elements and member values of an
/// array or object written back as compact JSON by `Value::to_string`, and
/// integers told apart by `Number::as_u64` and `Number::as_i64`. An error is
/// the text of serde_json's error. A text of white space alone is an error:
/// serde_json skips JSON white space and then finds no value (no other white
/// space character can begin one).
#[verifier::external_body]
pub(crate) fn parse_json(text: &str) -> (res: Result<JsonValue, String>)
    ensures
        match res {
            Ok(v) => json_parse(text@) == Ok::<JsonNode, Seq<char>>(v@),
            Err(e) => json_parse(text@) == Err::<JsonNode, Seq<char>>(e@),
        },
        crate::text::seq_is_blank(text@) ==> res is Err,
{
    Ok(match serde_json::from_str::<V>(text).map_err(|e| e.to_string())? {
        V::Null => Null,
        V::Bool(b) => Bool(b),
        V::Number(n) => Number(match (n.as_u64(), n.as_i64()) {
            (Some(u), _) => PosInt(u),
            (None, Some(i)) => NegInt(i),
            _ => Float(n.to_string()),
        }),
        V::String(s) => JsonValue::String(s),
        V::Array(a) => Array(a.iter().map(V::to_string).collect()),
        V::Object(m) => Object(m.into_iter().map(|(k, e)| (k, e.to_string())).collect()),
    })
}

/// The value of the first member named `key`.
pub open spec fn object_lookup(entries: Seq<(Seq<char>, Seq<char>)>, key: Seq<char>) -> Option<Seq<char>>
    decreases entries.len(),
{
    if entries.len() == 0 {
        None
    } else if entries[0].0 == key {
        Some(entries[0].1)
    } else {
        object_lookup(entries.drop_first(), key)
    }
}

/// `Value::get(key)`: the member `key` of an object; nothing for any other value.
pub open spec fn node_get(node: JsonNode, key: Seq<char>) -> Option<Seq<char>> {
    match node {
        JsonNode::Object(entries) => object_lookup(entries, key),
        _ => None,
    }
}

/// The view of an optional string.
pub open spec fn opt_view(o: Option<String>) -> Option<Seq<char>> {
    match o {
        Some(s) => Some(s@),
        None => None,
    }
}

/// Finds the member `key` among `entries`.
pub fn lookup_entry(entries: &Vec<(String, String)>, key: &str) -> (res: Option<String>)
    ensures
        opt_view(res) == object_lookup(entry_views(entries@), key@),
{
    let mut i: usize = 0;
    assert(entry_views(entries@).skip(0) =~= entry_views(entries@));
    while i < entries.len()
        invariant
            i <= entries.len(),
            object_lookup(entry_views(entries@), key@) == object_lookup(
                entry_views(entries@).skip(i as int),
                key@,
            ),
        decreases entries.len() - i,
    {
        let ghost rest = entry_views(entries@).skip(i as int);
        assert(rest[0] == (entries@[i as int].0@, entries@[i as int].1@));
        assert(rest.drop_first() =~= entry_views(entries@).skip(i + 1));
        if crate::text::str_eq(entries[i].0.as_str(), key) {
            return Some(entries[i].1.clone());
        }
        i = i + 1;
    }
    assert(entry_views(entries@).skip(i as int).len() == 0);
    None
}

impl JsonValue {
    /// `Value::get(key)`: the text of member `key` of an object.
    pub fn get(&self, key: &str) -> (res: Option<String>)
        ensures
            opt_view(res) == node_get(self@, key@),
    {
        match self {
            JsonValue::Object(entries) => lookup_entry(entries, key),
            _ => None,
        }
    }

    /// `Value::get(index)`: the text of element `index` of an array.
    pub fn get_index(&self, index: usize) -> (res: Option<String>)
        ensures
            opt_view(res) == match self@ {
                JsonNode::Array(elems) => if index < elems.len() {
                    Some(elems[index as int])
                } else {
                    None
                },
                _ => None,
            },
    {
        match self {
            JsonValue::Array(elems) => {
                if index < elems.len() {
                    Some(elems[index].clone())
                } else {
                    None
                }
            },
            _ => None,
        }
    }

    /// `Value::as_str`: the text of a string.
    pub fn as_str(&self) -> (res: Option<&str>)
        ensures
            match res {
                Some(s) => self@ == JsonNode::Str(s@),
                None => !(self@ is Str),
            },
    {
        match self {
            JsonValue::String(s) => Some(s.as_str()),
            _ => None,
        }
    }

    /// `Value::as_u64`: a non-negative integer.
    pub fn as_u64(&self) -> (res: Option<u64>)
        ensures
            match res {
                Some(u) => self@ == JsonNode::PosInt(u),
                None => !(self@ is PosInt),
            },
    {
        match self {
            JsonValue::Number(JsonNumber::PosInt(u)) => Some(*u),
            _ => None,
        }
    }

    /// `Value::as_bool`: a boolean.
    pub fn as_bool(&self) -> (res: Option<bool>)
        ensures
            match res {
                Some(b) => self@ == JsonNode::Bool(b),
                None => !(self@ is Bool),
            },
    {
        match self {
            JsonValue::Bool(b) => Some(*b),
            _ => None,
        }
    }

    /// Whether this is JSON `null`.
    pub fn is_null(&self) -> (res: bool)
        ensures
            res == (self@ is Null),
    {
        match self {
            JsonValue::Null => true,
            _ => false,
        }
    }
}

/// The value of member `key` of `n`, parsed.
pub open spec fn member_node(n: JsonNode, key: Seq<char>) -> Option<JsonNode> {
    match node_get(n, key) {
        Some(t) => json_of(t),
        None => None,
    }
}

/// `n.get(key).and_then(|v| v.as_str())`.
pub open spec fn member_str(n: JsonNode, key: Seq<char>) -> Option<Seq<char>> {
    match member_node(n, key) {
        Some(JsonNode::Str(s)) => Some(s),
        _ => None,
    }
}

/// `n.get(key).and_then(|v| v.as_u64())`.
pub open spec fn member_u64(n: JsonNode, key: Seq<char>) -> Option<u64> {
    match member_node(n, key) {
        Some(JsonNode::PosInt(u)) => Some(u),
        _ => None,
    }
}

/// `n.get(key).and_then(|v| v.as_bool())`.
pub open spec fn member_bool(n: JsonNode, key: Seq<char>) -> Option<bool> {
    match member_node(n, key) {
        Some(JsonNode::Bool(b)) => Some(b),
        _ => None,
    }
}

impl JsonValue {
    /// The value of member `key` of an object, parsed.
    pub fn member(&self, key: &str) -> (res: Option<JsonValue>)
        ensures
            match res {
                Some(v) => member_node(self@, key@) == Some(v@),
                None => member_node(self@, key@) is None,
            },
    {
        match self.get(key) {
            Some(t) => match parse_json(t.as_str()) {
                Ok(v) => Some(v),
                Err(_) => None,
            },
            None => None,
        }
    }

    /// The string value of member `key`.
    pub fn member_str(&self, key: &str) -> (res: Option<String>)
        ensures
            opt_view(res) == member_str(self@, key@),
    {
        match self.member(key) {
            Some(JsonValue::String(s)) => Some(s),
            _ => None,
        }
    }

    /// The non-negative integer value of member `key`.
    pub fn member_u64(&self, key: &str) -> (res: Option<u64>)
        ensures
            res == member_u64(self@, key@),
    {
        match self.member(key) {
            Some(JsonValue::Number(JsonNumber::PosInt(u))) => Some(u),
            _ => None,
        }
    }

    /// The boolean value of member `key`.
    pub fn member_bool(&self, key: &str) -> (res: Option<bool>)
        ensures
            res == member_bool(self@, key@),
    {
        match self.member(key) {
            Some(JsonValue::Bool(b)) => Some(b),
            _ => None,
        }
    }
}

} // verus!
