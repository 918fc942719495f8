//! The lyric data model and the line-fold transform.

use vstd::prelude::*;
use vstd::string::StringExecFns;

verus! {

/// One timed lyric line as the remote service reports it. The timing is
/// decoded and carried, but discarded when the lyric text is assembled.
#[derive(Debug)]
pub struct Line {
    pub start_time_ms: u64,
    pub words: String,
}

/// The inner object of the wire document: the sync mode, the timed lines in
/// order, and the language tag.
#[derive(Debug)]
pub struct Lyrics {
    pub sync_type: String,
    pub lines: Vec<Line>,
    pub language: String,
}

/// The wire document of the remote service: one object holding the lyrics.
#[derive(Debug)]
pub struct LyricsEntity {
    pub lyrics: Lyrics,
}

/// The outcome of a lookup: the assembled lyric text, or an absence marker.
#[derive(Debug)]
pub enum LyricResult {
    Found { lyric: String },
    NotFound,
}

/// The text of `lines` in order: each line's words followed by one newline;
/// no lines, no text.
pub open spec fn joined(lines: Seq<Line>) -> Seq<char>
    decreases lines.len(),
{
    if lines.len() == 0 {
        Seq::empty()
    } else {
        joined(lines.drop_last()) + lines.last().words@ + seq!['\n']
    }
}

/// Folds the lines into one string, each line's words followed by a newline,
/// in their original order.
pub fn join_lines(lines: &Vec<Line>) -> (r: String)
    ensures
        r@ == joined(lines@),
{
    let mut acc = String::new();
    let mut i: usize = 0;
    while i < lines.len()
        invariant
            i <= lines.len(),
            acc@ == joined(lines@.take(i as int)),
        decreases lines.len() - i,
    {
        acc.append(lines[i].words.as_str());
        acc.append("\n");
        proof {
            reveal_strlit("\n");
            let prefix = lines@.take(i + 1 as int);
            assert(prefix.drop_last() =~= lines@.take(i as int));
            assert(acc@ =~= joined(prefix));
        }
        i = i + 1;
    }
    proof {
        assert(lines@.take(lines@.len() as int) =~= lines@);
    }
    acc
}

/// Reduces a decoded document to its lookup outcome: always a `Found` whose
/// text is the fold of the document's lines.
pub fn lyric_of(doc: &LyricsEntity) -> (r: LyricResult)
    ensures
        r matches LyricResult::Found { lyric } && lyric@ == joined(doc.lyrics.lines@),
{
    LyricResult::Found { lyric: join_lines(&doc.lyrics.lines) }
}

/// Lines fold in their original order: extending the line list by one line
/// extends the folded text by exactly that line's words and one newline.
pub proof fn lemma_joined_extends(lines: Seq<Line>, line: Line)
    ensures
        joined(lines.push(line)) == joined(lines) + line.words@ + seq!['\n'],
{
    assert(lines.push(line).drop_last() =~= lines);
}

/// A document with no lines still yields lyric text, the empty text: absence
/// of lines is not an absent outcome.
pub proof fn lemma_empty_lines_empty_lyric(lines: Seq<Line>)
    requires
        lines.len() == 0,
    ensures
        joined(lines) == Seq::<char>::empty(),
{
}

} // verus!
