//! Translation of byte offsets within a UTF-8 text into zero-based
//! line / column positions, the column counted in UTF-16 code units.

use vstd::prelude::*;
use vstd::string::StringSliceAdditionalSpecFns;

verus! {

/// The byte that ends a line.
pub const LINE_FEED: u8 = 0x0A;

/// A place in a text: a zero-based line and a zero-based column on that line.
/// The column counts UTF-16 code units.
#[derive(Clone, Copy, Debug, PartialEq, Eq, Structural)]
pub struct SourcePosition {
    pub line: usize,
    pub column: usize,
}

/// Whether `byte` continues a multi-byte UTF-8 sequence (`10xxxxxx`).
pub open spec fn is_continuation(byte: u8) -> bool {
    0x80 <= byte < 0xC0
}

/// Whether `byte` opens a four-byte UTF-8 sequence (`11110xxx`), which encodes
/// a character that takes two UTF-16 code units.
pub open spec fn opens_four_bytes(byte: u8) -> bool {
    byte >= 0xF0
}

/// Whether the position `i` of `bytes` holds a line feed. Positions outside
/// the text hold none.
pub open spec fn is_line_break(bytes: Seq<u8>, i: int) -> bool {
    0 <= i < bytes.len() && bytes[i] == LINE_FEED
}

/// The number of line feeds among the positions `0 .. end` of `bytes`.
pub open spec fn line_breaks_before(bytes: Seq<u8>, end: int) -> nat
    decreases end,
{
    if end <= 0 {
        0
    } else {
        line_breaks_before(bytes, end - 1) + if is_line_break(bytes, end - 1) {
            1nat
        } else {
            0nat
        }
    }
}

/// Where the line that holds `offset` starts: the position behind the last
/// line feed before `offset`, or 0 where there is none.
pub open spec fn line_start(bytes: Seq<u8>, offset: int) -> int
    decreases offset,
{
    if offset <= 0 {
        0
    } else if is_line_break(bytes, offset - 1) {
        offset
    } else {
        line_start(bytes, offset - 1)
    }
}

/// The UTF-16 code units that the position `i` of `bytes` accounts for.
///
/// The leading byte of a character counts one unit and its continuation
/// bytes count none, with one exception: a four-byte sequence encodes a
/// character that takes a surrogate pair, so the byte behind its leading byte
/// counts the second unit. Summed over whole characters this is their length
/// in UTF-16. A position past the end of the text counts one unit, as if the
/// text went on with one-byte characters.
pub open spec fn code_units_at(bytes: Seq<u8>, i: int) -> nat {
    if i < 0 {
        0
    } else if i >= bytes.len() {
        1
    } else if is_continuation(bytes[i]) {
        if i > 0 && opens_four_bytes(bytes[i - 1]) {
            1
        } else {
            0
        }
    } else {
        1
    }
}

/// The UTF-16 code units that the positions `from .. to` account for.
pub open spec fn code_units_between(bytes: Seq<u8>, from: int, to: int) -> nat
    decreases to - from,
{
    if to <= from {
        0
    } else {
        code_units_between(bytes, from, to - 1) + code_units_at(bytes, to - 1)
    }
}

/// A position as numbers without bounds: what a `SourcePosition` stands for.
pub struct Place {
    pub line: nat,
    pub column: nat,
}

impl View for SourcePosition {
    type V = Place;

    open spec fn view(&self) -> Place {
        Place { line: self.line as nat, column: self.column as nat }
    }
}

/// The zero-based line of `offset`: the number of line feeds before it.
pub open spec fn line_of(bytes: Seq<u8>, offset: int) -> nat {
    line_breaks_before(bytes, offset)
}

/// The zero-based column of `offset`: the UTF-16 code units between the start
/// of its line and `offset`.
pub open spec fn column_of(bytes: Seq<u8>, offset: int) -> nat {
    code_units_between(bytes, line_start(bytes, offset), offset)
}

/// The position of `offset` within `bytes`.
pub open spec fn place_of(bytes: Seq<u8>, offset: int) -> Place {
    Place { line: line_of(bytes, offset), column: column_of(bytes, offset) }
}

/// The start of a line lies between the start of the text and the offset.
pub proof fn lemma_line_start_bounds(bytes: Seq<u8>, offset: int)
    requires
        0 <= offset,
    ensures
        0 <= line_start(bytes, offset) <= offset,
    decreases offset,
{
    if offset > 0 && !is_line_break(bytes, offset - 1) {
        lemma_line_start_bounds(bytes, offset - 1);
    }
}

/// Beyond the end of the text there are no line feeds, and every position
/// counts one code unit.
pub proof fn lemma_past_the_end(bytes: Seq<u8>, offset: int)
    requires
        bytes.len() <= offset,
    ensures
        line_breaks_before(bytes, offset) == line_breaks_before(bytes, bytes.len() as int),
        line_start(bytes, offset) == line_start(bytes, bytes.len() as int),
        column_of(bytes, offset) == column_of(bytes, bytes.len() as int) + (offset - bytes.len()),
    decreases offset - bytes.len(),
{
    if offset > bytes.len() {
        lemma_past_the_end(bytes, offset - 1);
        lemma_line_start_bounds(bytes, bytes.len() as int);
    }
}

/// Converts a byte offset within `text` into a line and a column.
///
/// The line is the number of line feeds before the offset. The column is the
/// number of UTF-16 code units between the start of that line and the offset.
/// The offset may be the length of the text, which denotes the position behind
/// its last character; a larger offset is taken as if the text went on with
/// one-byte characters on its last line.
pub fn position_of(text: &str, byte_offset: usize) -> (position: SourcePosition)
    ensures
        position@ == place_of(text.spec_bytes(), byte_offset as int),
{
    let bytes = text.as_bytes();
    let len = bytes.len();
    let stop = if byte_offset < len {
        byte_offset
    } else {
        len
    };
    let mut line: usize = 0;
    let mut column: usize = 0;
    let mut after_four_byte_lead = false;
    let mut i: usize = 0;
    while i < stop
        invariant
            i <= stop <= len,
            len == bytes@.len(),
            line == line_breaks_before(bytes@, i as int),
            line <= i,
            0 <= line_start(bytes@, i as int) <= i,
            column == code_units_between(bytes@, line_start(bytes@, i as int), i as int),
            column <= i - line_start(bytes@, i as int),
            after_four_byte_lead == (i > 0 && opens_four_bytes(bytes@[i - 1])),
        decreases stop - i,
    {
        let byte = bytes[i];
        if byte == LINE_FEED {
            line = line + 1;
            column = 0;
        } else if 0x80 <= byte && byte < 0xC0 {
            if after_four_byte_lead {
                column = column + 1;
            }
        } else {
            column = column + 1;
        }
        after_four_byte_lead = byte >= 0xF0;
        i = i + 1;
    }
    proof {
        if byte_offset >= len {
            lemma_past_the_end(bytes@, byte_offset as int);
        }
    }
    SourcePosition { line, column: column + (byte_offset - stop) }
}

/// A text without line feeds has one line: every offset lies on line 0.
pub proof fn lemma_single_line(bytes: Seq<u8>, offset: int)
    requires
        forall|i: int| 0 <= i < bytes.len() ==> bytes[i] != LINE_FEED,
    ensures
        line_of(bytes, offset) == 0,
        line_start(bytes, offset) == 0,
    decreases offset,
{
    if offset > 0 {
        lemma_single_line(bytes, offset - 1);
    }
}

/// In a text of ASCII bytes the column is the distance in bytes from the
/// start of the line.
pub proof fn lemma_ascii_column(bytes: Seq<u8>, offset: int)
    requires
        0 <= offset,
        forall|i: int| 0 <= i < bytes.len() ==> bytes[i] < 0x80,
    ensures
        column_of(bytes, offset) == offset - line_start(bytes, offset),
{
    lemma_line_start_bounds(bytes, offset);
    lemma_ascii_units(bytes, line_start(bytes, offset), offset);
}

/// Over ASCII bytes every position counts exactly one code unit.
proof fn lemma_ascii_units(bytes: Seq<u8>, from: int, to: int)
    requires
        0 <= from <= to,
        forall|i: int| 0 <= i < bytes.len() ==> bytes[i] < 0x80,
    ensures
        code_units_between(bytes, from, to) == to - from,
    decreases to - from,
{
    if from < to {
        lemma_ascii_units(bytes, from, to - 1);
    }
}

} // verus!
