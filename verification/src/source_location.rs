//! Positions inside a source text, measured over its UTF-8 bytes: a byte
//! offset together with the zero-based line it falls in and the number of
//! characters between the line's start and the offset.
//!
//! Only byte offsets that lie on a character boundary denote positions; an
//! offset into the middle of a character's encoding resolves to nothing.

use vstd::prelude::*;

verus! {

broadcast use vstd::slice::group_slice_axioms;

/// The newline byte that separates lines.
pub open spec fn is_newline(b: u8) -> bool {
    b == 10u8
}

/// Whether a byte starts a character's UTF-8 encoding: anything but a
/// continuation byte.
pub open spec fn is_char_start(b: u8) -> bool {
    !(0x80 <= b <= 0xbf)
}

/// How many newlines precede `off` in `text`: the zero-based line number of
/// the position `off`.
pub open spec fn newlines_before(text: Seq<u8>, off: int) -> int
    recommends
        0 <= off <= text.len(),
    decreases off,
{
    if off <= 0 {
        0
    } else {
        newlines_before(text, off - 1) + if is_newline(text[off - 1]) {
            1int
        } else {
            0int
        }
    }
}

/// Where the line containing position `off` begins: just after the nearest
/// preceding newline, or at the start of the text.
pub open spec fn line_start(text: Seq<u8>, off: int) -> int
    recommends
        0 <= off <= text.len(),
    decreases off,
{
    if off <= 0 {
        0
    } else if is_newline(text[off - 1]) {
        off
    } else {
        line_start(text, off - 1)
    }
}

/// How many characters begin in `text` at an offset in `start..end`.
pub open spec fn chars_between(text: Seq<u8>, start: int, end: int) -> int
    recommends
        0 <= start <= end <= text.len(),
    decreases end - start,
{
    if end <= start {
        0
    } else {
        chars_between(text, start, end - 1) + if is_char_start(text[end - 1]) {
            1int
        } else {
            0int
        }
    }
}

/// Where line number `line` begins in `text`, or `-1` when the text has no
/// such line.
pub open spec fn start_of_line(text: Seq<u8>, line: int) -> int
    decreases text.len(),
{
    if line <= 0 {
        0
    } else if text.len() == 0 {
        -1
    } else if is_newline(text[0]) {
        if start_of_line(text.skip(1), line - 1) == -1 {
            -1
        } else {
            start_of_line(text.skip(1), line - 1) + 1
        }
    } else {
        if start_of_line(text.skip(1), line) == -1 {
            -1
        } else {
            start_of_line(text.skip(1), line) + 1
        }
    }
}

/// The nearest character boundary at or after `pos`.
pub open spec fn next_char_boundary(text: Seq<u8>, pos: int) -> int
    recommends
        0 <= pos <= text.len(),
    decreases text.len() - pos,
{
    if pos < 0 || pos >= text.len() || is_char_start(text[pos]) {
        pos
    } else {
        next_char_boundary(text, pos + 1)
    }
}

/// The byte offset `count` characters past the boundary `pos` within one
/// line, or `-1` when the line (or the text) ends first.
pub open spec fn advance_in_line(text: Seq<u8>, pos: int, count: int) -> int
    decreases count,
{
    if count <= 0 {
        pos
    } else if pos >= text.len() || is_newline(text[pos]) {
        -1
    } else {
        advance_in_line(text, next_char_boundary(text, pos + 1), count - 1)
    }
}

/// The byte offset of the position `column` characters into line `line`,
/// when the text has such a line and the column does not run past its end.
pub open spec fn byte_of_line_col(text: Seq<u8>, line: int, column: int) -> Option<int> {
    if start_of_line(text, line) >= 0 && advance_in_line(
        text,
        start_of_line(text, line),
        column,
    ) >= 0 {
        Some(advance_in_line(text, start_of_line(text, line), column))
    } else {
        None
    }
}

/// A line's start is `-1` or a position within the text.
proof fn lemma_start_of_line_bounds(text: Seq<u8>, line: int)
    ensures
        -1 <= start_of_line(text, line) <= text.len(),
    decreases text.len(),
{
    if line > 0 && text.len() > 0 {
        lemma_start_of_line_bounds(text.skip(1), line - 1);
        lemma_start_of_line_bounds(text.skip(1), line);
    }
}

/// Resolves a zero-based line and character column to the byte offset of
/// that position; yields nothing when the text has no such line or the
/// column runs past the line's end.
#[verifier::loop_isolation(false)]
pub fn line_column_to_byte(text: &[u8], line: u64, column: u64) -> (r: Option<usize>)
    ensures
        r matches Some(o) ==> Some(o as int) == byte_of_line_col(text@, line as int, column as int),
        r is None ==> byte_of_line_col(text@, line as int, column as int) is None,
{
    let ghost p = text@;
    let n = text.len();
    let mut i: usize = 0;
    let mut remaining: u64 = line;
    proof {
        assert(p.skip(0) =~= p);
    }
    while remaining > 0 && i < n
        invariant
            i <= n,
            remaining <= line,
            newlines_before(p, i as int) == line - remaining,
            start_of_line(p, line as int) == (if start_of_line(
                p.skip(i as int),
                remaining as int,
            ) == -1 {
                -1int
            } else {
                start_of_line(p.skip(i as int), remaining as int) + i
            }),
        decreases n - i,
    {
        proof {
            assert(p.skip(i as int)[0] == p[i as int]);
            assert(p.skip(i as int).skip(1) =~= p.skip(i as int + 1));
            lemma_start_of_line_bounds(p.skip(i as int + 1), remaining as int - 1);
            lemma_start_of_line_bounds(p.skip(i as int + 1), remaining as int);
        }
        if text[i] == 10u8 {
            remaining = remaining - 1;
        }
        i = i + 1;
    }
    if remaining > 0 {
        return None;
    }
    proof {
        assert(start_of_line(p.skip(i as int), 0) == 0);
        assert(start_of_line(p, line as int) == i as int);
    }
    let mut j: usize = i;
    let mut k: u64 = 0;
    while k < column
        invariant
            i <= j <= n,
            k <= column,
            advance_in_line(p, i as int, column as int) == advance_in_line(
                p,
                j as int,
                column - k,
            ),
        decreases column - k,
    {
        if j >= n || text[j] == 10u8 {
            return None;
        }
        let ghost j_entry = j as int;
        j = j + 1;
        while j < n && 0x80 <= text[j] && text[j] <= 0xbf
            invariant
                j_entry < j <= n,
                next_char_boundary(p, j_entry + 1) == next_char_boundary(p, j as int),
            decreases n - j,
        {
            j = j + 1;
        }
        proof {
            assert(next_char_boundary(p, j as int) == j as int);
            assert(advance_in_line(p, j_entry, column - k) == advance_in_line(
                p,
                j as int,
                column - k - 1,
            ));
        }
        k = k + 1;
    }
    proof {
        assert(advance_in_line(p, j as int, 0) == j as int);
    }
    Some(j)
}

/// How many UTF-16 code units the scalar starting with this UTF-8 byte
/// occupies: two for the four-byte encodings (the scalars beyond the basic
/// multilingual plane), one for the other leading bytes, and none for a
/// continuation byte.
pub open spec fn utf16_weight(b: u8) -> int {
    if !is_char_start(b) {
        0
    } else if b >= 0xf0 {
        2
    } else {
        1
    }
}

/// How many UTF-16 code units encode the text before byte offset `off`.
pub open spec fn utf16_units_before(text: Seq<u8>, off: int) -> int
    recommends
        0 <= off <= text.len(),
    decreases off,
{
    if off <= 0 {
        0
    } else {
        utf16_units_before(text, off - 1) + utf16_weight(text[off - 1])
    }
}

/// Translates a byte offset in a UTF-8 text to the offset of the same
/// position in the text's UTF-16 form. An offset beyond the end, or one
/// that points into the middle of a scalar's encoding, yields nothing.
#[verifier::loop_isolation(false)]
pub fn byte_to_utf16(text: &[u8], offset: usize) -> (r: Option<u64>)
    requires
        text@.len() < 0x8000000000000000,
    ensures
        r is Some <==> offset <= text@.len() && (offset == text@.len() || is_char_start(
            text@[offset as int],
        )),
        r matches Some(u) ==> u == utf16_units_before(text@, offset as int),
{
    if offset > text.len() {
        return None;
    }
    if offset < text.len() && 0x80 <= text[offset] && text[offset] <= 0xbf {
        return None;
    }
    let mut units: u64 = 0;
    let mut i: usize = 0;
    while i < offset
        invariant
            i <= offset,
            units == utf16_units_before(text@, i as int),
            units <= 2 * i,
        decreases offset - i,
    {
        let b = text[i];
        if b < 0x80 || b > 0xbf {
            units = units + if b >= 0xf0 {
                2
            } else {
                1
            };
        }
        i = i + 1;
    }
    Some(units)
}

/// A position in a source text.
#[derive(Clone, Copy, Debug, PartialEq, Eq, Structural)]
pub struct SourceLocation {
    /// The position as a byte offset from the start of the text.
    pub byte_offset: u64,
    /// The zero-based line the position falls in.
    pub line: u64,
    /// The number of characters between the line's start and the position.
    pub column: u64,
}

impl SourceLocation {
    /// Resolves a byte offset inside `text` to its line and character
    /// column; an offset beyond the end of the text, or one inside a
    /// character's encoding, yields nothing.
    pub fn from_byte_offset(offset: usize, text: &[u8]) -> (r: Option<SourceLocation>)
        ensures
            r is Some <==> offset <= text@.len() && (offset == text@.len() || is_char_start(
                text@[offset as int],
            )),
            r matches Some(loc) ==> {
                &&& loc.byte_offset == offset
                &&& loc.line == newlines_before(text@, offset as int)
                &&& loc.column == chars_between(
                    text@,
                    line_start(text@, offset as int),
                    offset as int,
                )
            },
    {
        if offset > text.len() {
            return None;
        }
        if offset < text.len() && 0x80 <= text[offset] && text[offset] <= 0xbf {
            return None;
        }
        let mut line: usize = 0;
        let mut start: usize = 0;
        let mut column: usize = 0;
        let mut i: usize = 0;
        #[verifier::loop_isolation(false)]
        while i < offset
            invariant
                i <= offset,
                line <= i,
                start <= i,
                column <= i,
                line == newlines_before(text@, i as int),
                start == line_start(text@, i as int),
                column == chars_between(text@, start as int, i as int),
            decreases offset - i,
        {
            let b = text[i];
            if b == 10u8 {
                line = line + 1;
                start = i + 1;
                column = 0;
            } else if b < 0x80 || b > 0xbf {
                column = column + 1;
            }
            i = i + 1;
        }
        Some(
            SourceLocation {
                byte_offset: offset as u64,
                line: line as u64,
                column: column as u64,
            },
        )
    }
}

} // verus!
