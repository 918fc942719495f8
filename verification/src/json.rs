//! JSON values as plain data.
//!
//! The parser crate hands back an opaque value; this module parses a body
//! through it and re-shapes the result into [`JsonNode`], a type of this
//! library, so that the document-shape rules over it can be stated and
//! verified. A JSON number is kept only as its u64 reading: the one number
//! the document shape admits is a non-negative integer timestamp, and a
//! number read as `None` fails that shape exactly as it would fail decoding.

use vstd::prelude::*;
use crate::error::LyricError;

verus! {

#[verifier::external_type_specification]
#[verifier::external_body]
pub struct ExJsonValue(serde_json::Value);

#[verifier::external_type_specification]
#[verifier::external_body]
pub struct ExJsonError(serde_json::Error);

/// A JSON value held as plain data. A node that comes from the parser has no
/// duplicate object keys (the parser collapses them) and carries its members
/// in the parser's key order; lookup is by key, so that order carries no
/// meaning here.
pub enum JsonNode {
    Null,
    Bool(bool),
    Num(Option<u64>),
    Str(String),
    Arr(Vec<JsonNode>),
    Obj(Vec<(String, JsonNode)>),
}

/// The node a body parses to, if it parses: what serde_json::from_str makes
/// of the body, re-shaped. The parse reads the body alone, so this is a
/// function of it.
pub uninterp spec fn parsed(body: Seq<char>) -> Option<JsonNode>;

/// Relies on the Display impl of serde_json::Error for the message text.
#[verifier::external_body]
fn json_error_text(e: &serde_json::Error) -> String {
    format!("{}", e)
}

/// Relies on serde_json::Value only to tell its variants apart, one arm each:
/// every value maps to the same-shaped node, array elements in order, object
/// members in the parser's key order with duplicates already collapsed, and a
/// number to its u64 reading (serde_json::Number::as_u64).
#[verifier::external_body]
fn to_node(v: &serde_json::Value) -> JsonNode {
    match v {
        serde_json::Value::Null => JsonNode::Null,
        serde_json::Value::Bool(b) => JsonNode::Bool(*b),
        serde_json::Value::Number(n) => JsonNode::Num(n.as_u64()),
        serde_json::Value::String(s) => JsonNode::Str(s.clone()),
        serde_json::Value::Array(a) => JsonNode::Arr(a.iter().map(to_node).collect()),
        serde_json::Value::Object(m) => JsonNode::Obj(
            m.iter().map(|(k, val)| (k.clone(), to_node(val))).collect(),
        ),
    }
}

/// Relies on serde_json::from_str with the self-describing `Value` target:
/// deterministic in the body, `Ok` exactly when the body is well-formed JSON
/// within the parser's nesting limit, and then the parsed document, re-shaped
/// by `to_node`. That pair of outcomes is what `parsed` names.
#[verifier::external_body]
fn parse_body(body: &str) -> (r: Result<JsonNode, serde_json::Error>)
    ensures
        r matches Ok(n) ==> parsed(body@) == Some(n),
        r is Err ==> parsed(body@) is None,
{
    match serde_json::from_str::<serde_json::Value>(body) {
        Ok(v) => Ok(to_node(&v)),
        Err(e) => Err(e),
    }
}

/// Parses a body into its node: succeeds exactly when the body parses, with
/// the node the body parses to; anything else is a decode failure.
pub fn body_node(body: &str) -> (r: Result<JsonNode, LyricError>)
    ensures
        r is Ok <==> parsed(body@) is Some,
        r matches Ok(n) ==> parsed(body@) == Some(n),
        r matches Err(e) ==> e is Decode,
{
    match parse_body(body) {
        Ok(n) => Ok(n),
        Err(e) => Err(LyricError::Decode { detail: json_error_text(&e) }),
    }
}

/// The member of `members` under `key` from position `i` on: the first pair
/// whose key reads `key`.
pub open spec fn member_from(members: Seq<(String, JsonNode)>, key: Seq<char>, i: int) -> Option<
    JsonNode,
>
    decreases members.len() - i,
{
    if i < 0 || members.len() <= i {
        None
    } else if members[i].0@ == key {
        Some(members[i].1)
    } else {
        member_from(members, key, i + 1)
    }
}

/// The member of an object's member list under `key`, if any.
pub open spec fn member_of(members: Seq<(String, JsonNode)>, key: Seq<char>) -> Option<JsonNode> {
    member_from(members, key, 0)
}

/// Looks a member up by key: exactly the member `member_of` names.
pub fn member<'a>(members: &'a Vec<(String, JsonNode)>, key: &str) -> (r: Option<&'a JsonNode>)
    ensures
        r matches Some(v) ==> member_of(members@, key@) == Some(*v),
        r is None ==> member_of(members@, key@) is None,
{
    let owned = key.to_owned();
    let mut i: usize = 0;
    while i < members.len()
        invariant
            i <= members.len(),
            owned@ == key@,
            member_of(members@, key@) == member_from(members@, key@, i as int),
        decreases members.len() - i,
    {
        let pair = &members[i];
        if pair.0 == owned {
            return Some(&pair.1);
        }
        i = i + 1;
    }
    None
}

} // verus!
