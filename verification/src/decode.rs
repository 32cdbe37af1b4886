//! Reading typed records out of JSON documents, field by field, with the rules
//! of serde's derived `Deserialize`: a record is read by field name from an
//! object (other members are ignored) or by position from an array that has
//! exactly one element per field; an optional field may be missing or `null`.

use vstd::prelude::*;
use crate::json::{JsonNode, JsonValue, JsonNumber, json_of, object_lookup, opt_view, element_views, parse_json};

verus! {

/// The text of field number `index` (of `count`), named `name`, of the record
/// held by `node`.
pub open spec fn struct_member(node: JsonNode, name: Seq<char>, index: int, count: int) -> Option<Seq<char>> {
    match node {
        JsonNode::Object(entries) => object_lookup(entries, name),
        JsonNode::Array(elems) => if elems.len() == count && 0 <= index < count {
            Some(elems[index])
        } else {
            None
        },
        _ => None,
    }
}

/// `node` can hold a record of `count` fields: an object, or an array of
/// exactly `count` elements.
pub open spec fn struct_shaped(node: JsonNode, count: int) -> bool {
    match node {
        JsonNode::Object(_) => true,
        JsonNode::Array(elems) => elems.len() == count,
        _ => false,
    }
}

/// A required `String` field.
pub open spec fn field_string(m: Option<Seq<char>>) -> Option<Seq<char>> {
    match m {
        Some(t) => match json_of(t) {
            Some(JsonNode::Str(s)) => Some(s),
            _ => None,
        },
        None => None,
    }
}

/// An `Option<String>` field: missing or `null` is `None`.
pub open spec fn field_opt_string(m: Option<Seq<char>>) -> Option<Option<Seq<char>>> {
    match m {
        None => Some(None),
        Some(t) => match json_of(t) {
            Some(JsonNode::Null) => Some(None),
            Some(JsonNode::Str(s)) => Some(Some(s)),
            _ => None,
        },
    }
}

/// A required `u64` field.
pub open spec fn field_u64(m: Option<Seq<char>>) -> Option<u64> {
    match m {
        Some(t) => match json_of(t) {
            Some(JsonNode::PosInt(u)) => Some(u),
            _ => None,
        },
        None => None,
    }
}

/// An `Option<u32>` field: missing or `null` is `None`, a larger integer is
/// refused.
pub open spec fn field_opt_u32(m: Option<Seq<char>>) -> Option<Option<u32>> {
    match m {
        None => Some(None),
        Some(t) => match json_of(t) {
            Some(JsonNode::Null) => Some(None),
            Some(JsonNode::PosInt(u)) => if u <= u32::MAX {
                Some(Some(u as u32))
            } else {
                None
            },
            _ => None,
        },
    }
}

/// A required field of any JSON value.
pub open spec fn field_value(m: Option<Seq<char>>) -> Option<JsonNode> {
    match m {
        Some(t) => json_of(t),
        None => None,
    }
}

/// An optional field of any JSON value: missing or `null` is `None`.
pub open spec fn field_opt_value(m: Option<Seq<char>>) -> Option<Option<JsonNode>> {
    match m {
        None => Some(None),
        Some(t) => match json_of(t) {
            Some(JsonNode::Null) => Some(None),
            Some(n) => Some(Some(n)),
            None => None,
        },
    }
}

/// A required sequence field: the texts of the array's elements.
pub open spec fn field_array(m: Option<Seq<char>>) -> Option<Seq<Seq<char>>> {
    match m {
        Some(t) => match json_of(t) {
            Some(JsonNode::Array(elems)) => Some(elems),
            _ => None,
        },
        None => None,
    }
}

/// The view of an optional JSON value.
pub open spec fn opt_node(o: Option<JsonValue>) -> Option<JsonNode> {
    match o {
        Some(v) => Some(v@),
        None => None,
    }
}

/// The text of field number `index` (of `count`), named `name`.
pub fn struct_member_text(node: &JsonValue, name: &str, index: usize, count: usize) -> (res: Option<String>)
    ensures
        opt_view(res) == struct_member(node@, name@, index as int, count as int),
{
    match node {
        JsonValue::Object(entries) => crate::json::lookup_entry(entries, name),
        JsonValue::Array(elems) => {
            if elems.len() == count && index < count {
                Some(elems[index].clone())
            } else {
                None
            }
        },
        _ => None,
    }
}

/// Whether `node` can hold a record of `count` fields.
pub fn is_struct_shaped(node: &JsonValue, count: usize) -> (res: bool)
    ensures
        res == struct_shaped(node@, count as int),
{
    match node {
        JsonValue::Object(_) => true,
        JsonValue::Array(elems) => elems.len() == count,
        _ => false,
    }
}

/// Parses the text of a member, if there is one.
pub fn parse_member(m: &Option<String>) -> (res: Option<JsonValue>)
    ensures
        opt_node(res) == match opt_view(*m) {
            Some(t) => json_of(t),
            None => None,
        },
{
    match m {
        Some(t) => match parse_json(t.as_str()) {
            Ok(v) => Some(v),
            Err(_) => None,
        },
        None => None,
    }
}

/// Reads a required `String` field.
pub fn decode_string(m: &Option<String>) -> (res: Option<String>)
    ensures
        opt_view(res) == field_string(opt_view(*m)),
{
    match parse_member(m) {
        Some(JsonValue::String(s)) => Some(s),
        _ => None,
    }
}

/// Reads an `Option<String>` field.
pub fn decode_opt_string(m: &Option<String>) -> (res: Option<Option<String>>)
    ensures
        match res {
            Some(o) => field_opt_string(opt_view(*m)) == Some(opt_view(o)),
            None => field_opt_string(opt_view(*m)) is None,
        },
{
    if m.is_none() {
        return Some(None);
    }
    match parse_member(m) {
        Some(JsonValue::Null) => Some(None),
        Some(JsonValue::String(s)) => Some(Some(s)),
        _ => None,
    }
}

/// Reads a required `u64` field.
pub fn decode_u64(m: &Option<String>) -> (res: Option<u64>)
    ensures
        res == field_u64(opt_view(*m)),
{
    match parse_member(m) {
        Some(JsonValue::Number(JsonNumber::PosInt(u))) => Some(u),
        _ => None,
    }
}

/// Reads an `Option<u32>` field.
pub fn decode_opt_u32(m: &Option<String>) -> (res: Option<Option<u32>>)
    ensures
        res == field_opt_u32(opt_view(*m)),
{
    if m.is_none() {
        return Some(None);
    }
    match parse_member(m) {
        Some(JsonValue::Null) => Some(None),
        Some(JsonValue::Number(JsonNumber::PosInt(u))) => {
            if u <= 0xffff_ffffu64 {
                Some(Some(u as u32))
            } else {
                None
            }
        },
        _ => None,
    }
}

/// Reads a required field of any JSON value.
pub fn decode_value(m: &Option<String>) -> (res: Option<JsonValue>)
    ensures
        opt_node(res) == field_value(opt_view(*m)),
{
    parse_member(m)
}

/// Reads an optional field of any JSON value.
pub fn decode_opt_value(m: &Option<String>) -> (res: Option<Option<JsonValue>>)
    ensures
        match res {
            Some(o) => field_opt_value(opt_view(*m)) == Some(opt_node(o)),
            None => field_opt_value(opt_view(*m)) is None,
        },
{
    if m.is_none() {
        return Some(None);
    }
    match parse_member(m) {
        Some(JsonValue::Null) => Some(None),
        Some(v) => Some(Some(v)),
        None => None,
    }
}

/// Reads a required sequence field: the texts of its elements.
pub fn decode_array(m: &Option<String>) -> (res: Option<Vec<String>>)
    ensures
        match res {
            Some(v) => field_array(opt_view(*m)) == Some(element_views(v@)),
            None => field_array(opt_view(*m)) is None,
        },
{
    match parse_member(m) {
        Some(JsonValue::Array(elems)) => Some(elems),
        _ => None,
    }
}

} // verus!
