//! A span inside a source text: its start and end positions.

use vstd::prelude::*;

use crate::source_location::{chars_between, is_char_start, line_start, newlines_before, SourceLocation};

verus! {

/// A span inside a source text.
#[derive(Clone, Copy, Debug, PartialEq, Eq, Structural)]
pub struct SourceRange {
    pub start: SourceLocation,
    pub end: SourceLocation,
}

impl SourceRange {
    /// Resolves a byte range inside `text` to its start and end positions;
    /// a bound beyond the end of the text, or inside a character's
    /// encoding, yields nothing.
    pub fn from_range(start: usize, end: usize, text: &[u8]) -> (r: Option<SourceRange>)
        ensures
            r is Some <==> (start <= text@.len() && (start == text@.len() || is_char_start(
                text@[start as int],
            )) && end <= text@.len() && (end == text@.len() || is_char_start(
                text@[end as int],
            ))),
            r matches Some(range) ==> {
                &&& range.start.byte_offset == start
                &&& range.start.line == newlines_before(text@, start as int)
                &&& range.start.column == chars_between(
                    text@,
                    line_start(text@, start as int),
                    start as int,
                )
                &&& range.end.byte_offset == end
                &&& range.end.line == newlines_before(text@, end as int)
                &&& range.end.column == chars_between(
                    text@,
                    line_start(text@, end as int),
                    end as int,
                )
            },
    {
        let s = match SourceLocation::from_byte_offset(start, text) {
            Some(loc) => loc,
            None => {
                return None;
            },
        };
        let e = match SourceLocation::from_byte_offset(end, text) {
            Some(loc) => loc,
            None => {
                return None;
            },
        };
        Some(SourceRange { start: s, end: e })
    }
}

} // verus!
