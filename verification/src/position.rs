//! Positions in a document as an editor counts them: a line and a column
//! for a character offset, with the lines counted by ropey.
use vstd::prelude::*;

verus! {

/// The line that holds the character at `offset` of `text`, as
/// `ropey::Rope::try_char_to_line` counts lines.
pub uninterp spec fn rope_char_line(text: Seq<char>, offset: nat) -> nat;

/// The offset of the first character of line `line` of `text`, as
/// `ropey::Rope::try_line_to_char` counts lines.
pub uninterp spec fn rope_line_start(text: Seq<char>, line: nat) -> nat;

/// `ropey::Rope::try_char_to_line` on a rope of `text`: it fails exactly
/// when `offset` is past the end of the text, and otherwise gives the line
/// of that offset, a line that starts at or before the offset.
#[verifier::external_body]
fn char_to_line(text: &str, offset: usize) -> (r: Option<usize>)
    ensures
        r is Some <==> offset <= text@.len(),
        r matches Some(l) ==> l == rope_char_line(text@, offset as nat),
        r matches Some(l) ==> rope_line_start(text@, l as nat) <= offset,
{
    ropey::Rope::from_str(text).try_char_to_line(offset).ok()
}

/// `ropey::Rope::try_line_to_char` on a rope of `text`: the offset where
/// line `line` starts. It fails only for a line past the last one, so it
/// succeeds on the line of any offset within the text.
#[verifier::external_body]
fn line_to_char(text: &str, line: usize) -> (r: Option<usize>)
    ensures
        r matches Some(c) ==> c == rope_line_start(text@, line as nat),
        (exists|o: nat| o <= text@.len() && line as nat == #[trigger] rope_char_line(text@, o))
            ==> r is Some,
{
    ropey::Rope::from_str(text).try_line_to_char(line).ok()
}

/// The line and column of the character at `offset` of `text`: its line,
/// and how far it stands from the start of that line; none exactly when
/// the offset is past the end of the text.
pub fn offset_to_position(text: &str, offset: usize) -> (r: Option<(usize, usize)>)
    ensures
        r is Some <==> offset <= text@.len(),
        r matches Some((l, c)) ==> offset <= text@.len() && l == rope_char_line(
            text@,
            offset as nat,
        ) && c + rope_line_start(text@, l as nat) == offset,
{
    let line = match char_to_line(text, offset) {
        Some(l) => l,
        None => {
            return None;
        },
    };
    assert(rope_char_line(text@, offset as nat) == line as nat);
    let first = match line_to_char(text, line) {
        Some(c) => c,
        None => {
            return None;
        },
    };
    if first <= offset {
        Some((line, offset - first))
    } else {
        None
    }
}

} // verus!
