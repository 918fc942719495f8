//! The document-shape rules: decoding a JSON node, and then a response body,
//! into the lyric document.
//!
//! The expected shape is one JSON object with a `lyrics` member, itself an
//! object holding `syncType` (string), `lines` (array of objects with
//! `startTimeMs`, a non-negative integer, and `words`, a string) and
//! `language` (string). Unknown members are ignored; any missing or mistyped
//! required member is a decode failure, never a panic and never an absent
//! outcome.

use vstd::prelude::*;
use vstd::string::StringExecFns;
use crate::error::LyricError;
use crate::json::{JsonNode, member, member_of, parsed};
use crate::json::body_node;
use crate::lyrics::{Line, Lyrics, LyricsEntity, LyricResult, joined};
use crate::lyrics::lyric_of;

verus! {

/// Whether a node has the line-record shape: an object whose `startTimeMs`
/// is a number with a u64 reading and whose `words` is a string.
pub open spec fn line_shape(n: JsonNode) -> bool {
    match n {
        JsonNode::Obj(ms) => {
            &&& (member_of(ms@, "startTimeMs"@) matches Some(JsonNode::Num(Some(_))))
            &&& (member_of(ms@, "words"@) matches Some(JsonNode::Str(_)))
        },
        _ => false,
    }
}

/// The line a shaped node denotes.
pub open spec fn line_of(n: JsonNode) -> Line {
    match n {
        JsonNode::Obj(ms) => Line {
            start_time_ms: match member_of(ms@, "startTimeMs"@) {
                Some(JsonNode::Num(Some(v))) => v,
                _ => 0,
            },
            words: match member_of(ms@, "words"@) {
                Some(JsonNode::Str(s)) => s,
                _ => arbitrary(),
            },
        },
        _ => arbitrary(),
    }
}

/// The member list of the document's `lyrics` object, when it is one.
pub open spec fn lyrics_members(n: JsonNode) -> Seq<(String, JsonNode)> {
    match n {
        JsonNode::Obj(root) => match member_of(root@, "lyrics"@) {
            Some(JsonNode::Obj(ly)) => ly@,
            _ => Seq::empty(),
        },
        _ => Seq::empty(),
    }
}

/// Whether a node has the document shape described at the top of this module.
pub open spec fn document_shape(n: JsonNode) -> bool {
    match n {
        JsonNode::Obj(root) => match member_of(root@, "lyrics"@) {
            Some(JsonNode::Obj(ly)) => {
                &&& (member_of(ly@, "syncType"@) matches Some(JsonNode::Str(_)))
                &&& (member_of(ly@, "language"@) matches Some(JsonNode::Str(_)))
                &&& match member_of(ly@, "lines"@) {
                    Some(JsonNode::Arr(ls)) => forall|i: int|
                        0 <= i < ls@.len() ==> line_shape(#[trigger] ls@[i]),
                    _ => false,
                }
            },
            _ => false,
        },
        _ => false,
    }
}

/// The document's `syncType` text, when the shape holds.
pub open spec fn doc_sync_type(n: JsonNode) -> String {
    match member_of(lyrics_members(n), "syncType"@) {
        Some(JsonNode::Str(s)) => s,
        _ => arbitrary(),
    }
}

/// The document's `language` text, when the shape holds.
pub open spec fn doc_language(n: JsonNode) -> String {
    match member_of(lyrics_members(n), "language"@) {
        Some(JsonNode::Str(s)) => s,
        _ => arbitrary(),
    }
}

/// The document's line nodes in order, when the shape holds.
pub open spec fn doc_lines(n: JsonNode) -> Seq<JsonNode> {
    match member_of(lyrics_members(n), "lines"@) {
        Some(JsonNode::Arr(ls)) => ls@,
        _ => Seq::empty(),
    }
}

/// The lines a shaped document node denotes, in order.
pub open spec fn doc_line_seq(n: JsonNode) -> Seq<Line> {
    doc_lines(n).map_values(|ln: JsonNode| line_of(ln))
}

/// What a decoded document holds of the node it was decoded from.
pub open spec fn doc_matches(n: JsonNode, doc: LyricsEntity) -> bool {
    &&& doc.lyrics.sync_type == doc_sync_type(n)
    &&& doc.lyrics.language == doc_language(n)
    &&& doc.lyrics.lines@ == doc_line_seq(n)
}

/// The decode failure for a required member that is missing or mistyped.
fn member_failure(field: &str) -> (r: LyricError)
    ensures
        r matches LyricError::Decode { detail } && detail@ == field@
            + " is missing or not of the expected type"@,
{
    LyricError::Decode {
        detail: String::from_str(field).concat(" is missing or not of the expected type"),
    }
}

/// Decodes one element of the `lines` array: the line it denotes exactly
/// when it has the line-record shape, a decode failure otherwise.
fn decode_line_node(n: &JsonNode) -> (r: Result<Line, LyricError>)
    ensures
        r is Ok <==> line_shape(*n),
        r matches Ok(l) ==> l == line_of(*n),
        r matches Err(e) ==> e is Decode,
{
    let ms = match n {
        JsonNode::Obj(ms) => ms,
        _ => {
            return Err(member_failure("lines"));
        },
    };
    let start_time_ms = match member(ms, "startTimeMs") {
        Some(JsonNode::Num(Some(v))) => *v,
        _ => {
            return Err(member_failure("startTimeMs"));
        },
    };
    let words = match member(ms, "words") {
        Some(JsonNode::Str(s)) => s.clone(),
        _ => {
            return Err(member_failure("words"));
        },
    };
    Ok(Line { start_time_ms, words })
}

/// Decodes a node into the wire document: exactly the nodes of the document
/// shape decode, to the document they denote; every other node is a decode
/// failure, never an absent outcome.
#[verifier::loop_isolation(false)]
pub fn decode_node(n: &JsonNode) -> (r: Result<LyricsEntity, LyricError>)
    ensures
        r is Ok <==> document_shape(*n),
        r matches Ok(doc) ==> doc_matches(*n, doc),
        r matches Err(e) ==> e is Decode,
{
    let root = match n {
        JsonNode::Obj(ms) => ms,
        _ => {
            return Err(member_failure("lyrics"));
        },
    };
    let ly = match member(root, "lyrics") {
        Some(JsonNode::Obj(ms)) => ms,
        _ => {
            return Err(member_failure("lyrics"));
        },
    };
    let sync_type = match member(ly, "syncType") {
        Some(JsonNode::Str(s)) => s.clone(),
        _ => {
            return Err(member_failure("syncType"));
        },
    };
    let language = match member(ly, "language") {
        Some(JsonNode::Str(s)) => s.clone(),
        _ => {
            return Err(member_failure("language"));
        },
    };
    let line_nodes = match member(ly, "lines") {
        Some(JsonNode::Arr(ls)) => ls,
        _ => {
            return Err(member_failure("lines"));
        },
    };
    let mut lines: Vec<Line> = Vec::new();
    let mut i: usize = 0;
    while i < line_nodes.len()
        invariant
            i <= line_nodes.len(),
            forall|j: int| 0 <= j < i ==> line_shape(#[trigger] line_nodes@[j]),
            lines@ == line_nodes@.take(i as int).map_values(|ln: JsonNode| line_of(ln)),
        decreases line_nodes.len() - i,
    {
        match decode_line_node(&line_nodes[i]) {
            Ok(l) => lines.push(l),
            Err(e) => {
                proof {
                    assert(!line_shape(line_nodes@[i as int]));
                }
                return Err(e);
            },
        }
        proof {
            assert(lines@ =~= line_nodes@.take(i + 1 as int).map_values(
                |ln: JsonNode| line_of(ln),
            ));
        }
        i = i + 1;
    }
    proof {
        assert(line_nodes@.take(line_nodes@.len() as int) =~= line_nodes@);
    }
    Ok(LyricsEntity { lyrics: Lyrics { sync_type, lines, language } })
}

/// The node half of a lookup: decode the node, then fold its lines. Exactly
/// the nodes of the document shape yield a `Found` outcome, whose text is the
/// fold of the lines the node denotes; every other node is a decode failure.
pub fn node_lyric(n: &JsonNode) -> (r: Result<LyricResult, LyricError>)
    ensures
        r is Ok <==> document_shape(*n),
        r matches Ok(o) ==> o matches LyricResult::Found { lyric } && lyric@ == joined(
            doc_line_seq(*n),
        ),
        r matches Err(e) ==> e is Decode,
{
    match decode_node(n) {
        Ok(doc) => Ok(lyric_of(&doc)),
        Err(e) => Err(e),
    }
}

/// Decodes the response body into the wire document: succeeds exactly when
/// the body parses to a node of the document shape, with the document that
/// node denotes. Every failure is a decode failure: a body that does not
/// parse or does not have the shape is reported, never passed off as an
/// absent outcome.
pub fn decode_document(body: &str) -> (r: Result<LyricsEntity, LyricError>)
    ensures
        r is Ok <==> (parsed(body@) matches Some(n) && document_shape(n)),
        r matches Ok(doc) ==> parsed(body@) matches Some(n) && doc_matches(n, doc),
        r matches Err(e) ==> e is Decode,
{
    let node = match body_node(body) {
        Ok(n) => n,
        Err(e) => {
            return Err(e);
        },
    };
    decode_node(&node)
}

/// The response-body half of a lookup: parse, decode, fold. Succeeds exactly
/// when the body parses to a node of the document shape, always with a
/// `Found` outcome whose text is the fold of the lines that node denotes; a
/// malformed body is a decode failure, never a transport failure and never
/// `NotFound`.
pub fn decode_lyric(body: &str) -> (r: Result<LyricResult, LyricError>)
    ensures
        r is Ok <==> (parsed(body@) matches Some(n) && document_shape(n)),
        r matches Ok(o) ==> parsed(body@) matches Some(n) && o matches LyricResult::Found {
            lyric,
        } && lyric@ == joined(doc_line_seq(n)),
        r matches Err(e) ==> e is Decode,
{
    let node = match body_node(body) {
        Ok(n) => n,
        Err(e) => {
            return Err(e);
        },
    };
    node_lyric(&node)
}

} // verus!
