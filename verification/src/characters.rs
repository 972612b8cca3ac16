//! Positions in terms of characters: what the byte-wise definitions of the
//! position module come to at the boundary of a character.

use vstd::prelude::*;
use vstd::utf8::{
    char_is_scalar, encode_scalar, encode_utf8, is_ascii_chars, is_ascii_chars_encode_utf8,
    has_width_1_encoding, has_width_2_encoding,
    has_width_3_encoding, has_width_4_encoding, is_continuation_byte, is_leading_byte_width_1,
    is_leading_byte_width_2, is_leading_byte_width_3, is_leading_byte_width_4,
    last_continuation_byte, leading_byte_width_1, leading_byte_width_2, leading_byte_width_3,
    leading_byte_width_4, second_last_continuation_byte, third_last_continuation_byte,
};
use crate::position::{
    code_units_between, column_of, is_line_break, lemma_ascii_column, lemma_line_start_bounds,
    line_breaks_before, line_start, place_of, Place,
};

verus! {

/// The UTF-16 code units that a character takes: two for a character beyond
/// the basic plane, which is written as a surrogate pair, else one.
pub open spec fn utf16_units(c: char) -> nat {
    if (c as u32) < 0x10000 {
        1
    } else {
        2
    }
}

/// The length of a text in UTF-16 code units.
pub open spec fn utf16_length(chars: Seq<char>) -> nat
    decreases chars.len(),
{
    if chars.len() == 0 {
        0
    } else {
        utf16_length(chars.drop_last()) + utf16_units(chars.last())
    }
}

/// The number of line feeds in a text.
pub open spec fn line_feeds(chars: Seq<char>) -> nat
    decreases chars.len(),
{
    if chars.len() == 0 {
        0
    } else {
        line_feeds(chars.drop_last()) + if chars.last() == '\n' {
            1nat
        } else {
            0nat
        }
    }
}

/// The last line of a text: its characters behind the last line feed.
pub open spec fn last_line(chars: Seq<char>) -> Seq<char>
    decreases chars.len(),
{
    if chars.len() == 0 || chars.last() == '\n' {
        Seq::empty()
    } else {
        last_line(chars.drop_last()).push(chars.last())
    }
}

proof fn lemma_one_byte(v: u32)
    by (bit_vector)
    requires
        has_width_1_encoding(v),
    ensures
        is_leading_byte_width_1(leading_byte_width_1(v)),
        leading_byte_width_1(v) as u32 == v,
{
}

proof fn lemma_two_bytes(v: u32)
    by (bit_vector)
    requires
        has_width_2_encoding(v),
    ensures
        is_leading_byte_width_2(leading_byte_width_2(v)),
        is_continuation_byte(last_continuation_byte(v)),
{
}

proof fn lemma_three_bytes(v: u32)
    by (bit_vector)
    requires
        has_width_3_encoding(v),
    ensures
        is_leading_byte_width_3(leading_byte_width_3(v)),
        is_continuation_byte(second_last_continuation_byte(v)),
        is_continuation_byte(last_continuation_byte(v)),
{
}

proof fn lemma_four_bytes(v: u32)
    by (bit_vector)
    requires
        has_width_4_encoding(v),
    ensures
        is_leading_byte_width_4(leading_byte_width_4(v)),
        is_continuation_byte(third_last_continuation_byte(v)),
        is_continuation_byte(second_last_continuation_byte(v)),
        is_continuation_byte(last_continuation_byte(v)),
{
}

/// The encoding of a text is the encoding of its parts, one behind the other.
pub proof fn lemma_encoding_of_parts(a: Seq<char>, b: Seq<char>)
    ensures
        encode_utf8(a + b) == encode_utf8(a) + encode_utf8(b),
    decreases a.len(),
{
    if a.len() == 0 {
        assert(a + b =~= b);
        assert(encode_utf8(a) + encode_utf8(b) =~= encode_utf8(b));
    } else {
        lemma_encoding_of_parts(a.drop_first(), b);
        assert((a + b).drop_first() =~= a.drop_first() + b);
        assert(encode_utf8(a + b) =~= encode_utf8(a) + encode_utf8(b));
    }
}

/// Code units add up over adjoining stretches.
proof fn lemma_units_add_up(bytes: Seq<u8>, from: int, mid: int, to: int)
    requires
        from <= mid <= to,
    ensures
        code_units_between(bytes, from, to) == code_units_between(bytes, from, mid)
            + code_units_between(bytes, mid, to),
    decreases to - mid,
{
    if mid < to {
        lemma_units_add_up(bytes, from, mid, to - 1);
    }
}

/// Over a stretch without line feed the line stays the same.
proof fn lemma_same_line(bytes: Seq<u8>, from: int, to: int)
    requires
        0 <= from <= to,
        forall|i: int| from <= i < to ==> !is_line_break(bytes, i),
    ensures
        line_breaks_before(bytes, to) == line_breaks_before(bytes, from),
        line_start(bytes, to) == line_start(bytes, from),
    decreases to - from,
{
    if from < to {
        lemma_same_line(bytes, from, to - 1);
    }
}

/// What the bytes of one character come to: the character is a line feed
/// exactly if its encoding is the one byte of a line feed, no byte of another
/// character is a line feed, and the bytes count the character's UTF-16 units.
proof fn lemma_bytes_of_character(bytes: Seq<u8>, at: int, c: char)
    requires
        0 <= at,
        at + encode_scalar(c as u32).len() <= bytes.len(),
        bytes.subrange(at, at + encode_scalar(c as u32).len()) == encode_scalar(c as u32),
    ensures
        encode_scalar(c as u32).len() >= 1,
        code_units_between(bytes, at, at + encode_scalar(c as u32).len()) == utf16_units(c),
        c == '\n' ==> encode_scalar(c as u32).len() == 1 && is_line_break(bytes, at),
        c != '\n' ==> forall|i: int|
            at <= i < at + encode_scalar(c as u32).len() ==> !is_line_break(bytes, i),
{
    let v = c as u32;
    let code = encode_scalar(v);
    let end = at + code.len();
    char_is_scalar(c);
    assert forall|j: int| 0 <= j < code.len() implies bytes[at + j] == code[j] by {
        assert(bytes.subrange(at, end)[j] == bytes[at + j]);
    }
    reveal_with_fuel(code_units_between, 5);
    if has_width_1_encoding(v) {
        lemma_one_byte(v);
        assert(bytes[at] == code[0]);
        assert(bytes[at] as u32 == v);
        assert('\n' as u32 == 0x0A);
    } else if has_width_2_encoding(v) {
        lemma_two_bytes(v);
        assert(bytes[at] == code[0]);
        assert(bytes[at + 1] == code[1]);
    } else if has_width_3_encoding(v) {
        lemma_three_bytes(v);
        assert(bytes[at] == code[0]);
        assert(bytes[at + 1] == code[1]);
        assert(bytes[at + 2] == code[2]);
    } else {
        lemma_four_bytes(v);
        assert(bytes[at] == code[0]);
        assert(bytes[at + 1] == code[1]);
        assert(bytes[at + 2] == code[2]);
        assert(bytes[at + 3] == code[3]);
    }
}

/// The position behind the characters `before`, in any bytes that begin
/// with their encoding.
proof fn lemma_position_behind(bytes: Seq<u8>, before: Seq<char>)
    requires
        encode_utf8(before).is_prefix_of(bytes),
    ensures
        place_of(bytes, encode_utf8(before).len() as int) == (Place {
            line: line_feeds(before),
            column: utf16_length(last_line(before)),
        }),
    decreases before.len(),
{
    if before.len() > 0 {
        let init = before.drop_last();
        let c = before.last();
        let code = encode_scalar(c as u32);
        assert(before =~= init + seq![c]);
        lemma_encoding_of_parts(init, seq![c]);
        assert(seq![c].drop_first() =~= Seq::<char>::empty());
        assert(encode_utf8(seq![c]) =~= code) by {
            reveal_with_fuel(encode_utf8, 2);
        }
        let from = encode_utf8(init).len() as int;
        let to = encode_utf8(before).len() as int;
        assert(to == from + code.len());
        assert(encode_utf8(init).is_prefix_of(bytes)) by {
            assert(encode_utf8(init) =~= encode_utf8(before).subrange(0, from));
        }
        lemma_position_behind(bytes, init);
        assert(bytes.subrange(from, to) =~= code) by {
            let whole = encode_utf8(before);
            assert(whole == bytes.subrange(0, to));
            assert(whole == encode_utf8(init) + code);
            assert forall|j: int| 0 <= j < code.len() implies bytes.subrange(from, to)[j]
                == code[j] by {
                assert(bytes.subrange(0, to)[from + j] == bytes[from + j]);
                assert(whole[from + j] == code[j]);
            }
        }
        lemma_bytes_of_character(bytes, from, c);
        lemma_line_start_bounds(bytes, from);
        if c == '\n' {
            assert(to == from + 1);
        } else {
            lemma_same_line(bytes, from, to);
            lemma_units_add_up(bytes, line_start(bytes, from), from, to);
            let line = last_line(init);
            assert(line.push(c).drop_last() =~= line);
        }
    }
}

/// At the boundary between the characters `before` and the characters
/// `after` of a text, the line is the number of line feeds in `before`, and
/// the column is the length in UTF-16 code units of what `before` holds
/// behind its last line feed.
pub proof fn lemma_position_at_boundary(before: Seq<char>, after: Seq<char>)
    ensures
        place_of(encode_utf8(before + after), encode_utf8(before).len() as int) == (Place {
            line: line_feeds(before),
            column: utf16_length(last_line(before)),
        }),
{
    lemma_encoding_of_parts(before, after);
    lemma_position_behind(encode_utf8(before + after), before);
}

/// In a text of ASCII characters the column of every offset is its distance
/// in bytes from the start of its line.
pub proof fn lemma_ascii_text_column(chars: Seq<char>, offset: int)
    requires
        is_ascii_chars(chars),
        0 <= offset,
    ensures
        column_of(encode_utf8(chars), offset) == offset - line_start(encode_utf8(chars), offset),
{
    let bytes = encode_utf8(chars);
    is_ascii_chars_encode_utf8(chars);
    assert forall|i: int| 0 <= i < bytes.len() implies bytes[i] < 0x80 by {
        assert(chars[i] as u8 == bytes[i]);
        assert(chars[i] <= '\u{7f}');
    }
    lemma_ascii_column(bytes, offset);
}

} // verus!
