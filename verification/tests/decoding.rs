//! Decoding real JSON bodies: the document shape, its failure cases, and the
//! full body-to-outcome path.

use lyric_finder::{LyricError, LyricResult};

const SHAPE_OF_YOU: &str = r#"{"lyrics":{"syncType":"LINE_SYNCED","lines":[{"startTimeMs":0,"words":"I'm in love with the shape of you"},{"startTimeMs":3000,"words":"We push and pull like a magnet do"}],"language":"en"}}"#;

#[test]
fn well_shaped_body_yields_found_with_joined_lines() {
    match lyric_finder::decode_lyric(SHAPE_OF_YOU) {
        Ok(LyricResult::Found { lyric }) => {
            assert_eq!(lyric, "I'm in love with the shape of you\nWe push and pull like a magnet do\n");
        }
        other => panic!("expected Found, got {:?}", other),
    }
}

#[test]
fn decoded_document_keeps_every_member() {
    let doc = lyric_finder::decode_document(SHAPE_OF_YOU).expect("the body is well shaped");
    assert_eq!(doc.lyrics.sync_type, "LINE_SYNCED");
    assert_eq!(doc.lyrics.language, "en");
    assert_eq!(doc.lyrics.lines.len(), 2);
    assert_eq!(doc.lyrics.lines[0].start_time_ms, 0);
    assert_eq!(doc.lyrics.lines[0].words, "I'm in love with the shape of you");
    assert_eq!(doc.lyrics.lines[1].start_time_ms, 3000);
    assert_eq!(doc.lyrics.lines[1].words, "We push and pull like a magnet do");
}

#[test]
fn empty_lines_array_yields_found_with_empty_lyric() {
    let body = r#"{"lyrics":{"syncType":"UNSYNCED","lines":[],"language":"en"}}"#;
    match lyric_finder::decode_lyric(body) {
        Ok(LyricResult::Found { lyric }) => assert_eq!(lyric, ""),
        other => panic!("expected Found with empty lyric, got {:?}", other),
    }
}

#[test]
fn missing_lyrics_member_is_a_decode_error() {
    let body = r#"{"something":"else"}"#;
    match lyric_finder::decode_lyric(body) {
        Err(e) => {
            assert!(e.is_decode());
            assert!(!e.is_transport());
        }
        Ok(other) => panic!("a body without lyrics must not decode, got {:?}", other),
    }
}

#[test]
fn unparsable_body_is_a_decode_error() {
    let body = "{\"lyrics\":";
    match lyric_finder::decode_lyric(body) {
        Err(e) => assert!(e.is_decode()),
        Ok(other) => panic!("a truncated body must not decode, got {:?}", other),
    }
}

#[test]
fn mistyped_lines_member_is_a_decode_error() {
    let body = r#"{"lyrics":{"syncType":"LINE_SYNCED","lines":"none","language":"en"}}"#;
    assert!(matches!(lyric_finder::decode_lyric(body), Err(LyricError::Decode { .. })));
}

#[test]
fn missing_words_in_a_line_is_a_decode_error() {
    let body = r#"{"lyrics":{"syncType":"LINE_SYNCED","lines":[{"startTimeMs":0}],"language":"en"}}"#;
    assert!(matches!(lyric_finder::decode_lyric(body), Err(LyricError::Decode { .. })));
}

#[test]
fn negative_start_time_is_a_decode_error() {
    let body = r#"{"lyrics":{"syncType":"LINE_SYNCED","lines":[{"startTimeMs":-5,"words":"w"}],"language":"en"}}"#;
    assert!(matches!(lyric_finder::decode_lyric(body), Err(LyricError::Decode { .. })));
}

#[test]
fn missing_language_is_a_decode_error() {
    let body = r#"{"lyrics":{"syncType":"LINE_SYNCED","lines":[]}}"#;
    assert!(matches!(lyric_finder::decode_lyric(body), Err(LyricError::Decode { .. })));
}

#[test]
fn unknown_members_are_ignored() {
    let body = r#"{"extra":1,"lyrics":{"syncType":"LINE_SYNCED","colour":"blue","lines":[{"startTimeMs":0,"words":"hello","mood":"calm"}],"language":"en"}}"#;
    match lyric_finder::decode_lyric(body) {
        Ok(LyricResult::Found { lyric }) => assert_eq!(lyric, "hello\n"),
        other => panic!("unknown members must be ignored, got {:?}", other),
    }
}

#[test]
fn decode_error_message_names_the_kind() {
    let err = lyric_finder::decode_lyric("not json at all").expect_err("must not decode");
    assert!(err.message().starts_with("decode error: "));
}
