use tan_lsp::position::{position_of, SourcePosition};

fn at(line: usize, column: usize) -> SourcePosition {
    SourcePosition { line, column }
}

#[test]
fn start_of_text_is_origin() {
    assert_eq!(position_of("(+ 1 2)", 0), at(0, 0));
    assert_eq!(position_of("", 0), at(0, 0));
}

#[test]
fn column_counts_bytes_in_ascii() {
    let text = "(let a 1)\n(let b 2)\n";
    assert_eq!(position_of(text, 4), at(0, 4));
    assert_eq!(position_of(text, 9), at(0, 9));
    assert_eq!(position_of(text, 10), at(1, 0));
    assert_eq!(position_of(text, 15), at(1, 5));
    assert_eq!(position_of(text, 19), at(1, 9));
}

#[test]
fn line_counts_line_feeds_before_offset() {
    let text = "a\n\nb\nc";
    assert_eq!(position_of(text, 1).line, 0);
    assert_eq!(position_of(text, 2).line, 1);
    assert_eq!(position_of(text, 3).line, 2);
    assert_eq!(position_of(text, 4).line, 2);
    assert_eq!(position_of(text, 5).line, 3);
    assert_eq!(position_of(text, 6), at(3, 1));
}

#[test]
fn text_without_line_feed_is_one_line() {
    let text = "(do (write 1) (write 2))";
    for offset in 0..=text.len() {
        assert_eq!(position_of(text, offset), at(0, offset));
    }
}

#[test]
fn end_of_text_is_a_position() {
    assert_eq!(position_of("abc", 3), at(0, 3));
    assert_eq!(position_of("abc\n", 4), at(1, 0));
}

#[test]
fn offset_past_the_end_goes_on_along_the_last_line() {
    assert_eq!(position_of("(+ 1", 5), at(0, 5));
    assert_eq!(position_of("a\nbc", 7), at(1, 5));
    assert_eq!(position_of("", 3), at(0, 3));
}

#[test]
fn carriage_return_is_a_column() {
    assert_eq!(position_of("a\r\nb", 2), at(0, 2));
    assert_eq!(position_of("a\r\nb", 3), at(1, 0));
}

#[test]
fn two_byte_character_is_one_code_unit() {
    let text = "\u{e9}a";
    assert_eq!(text.len(), 3);
    assert_eq!(position_of(text, 2), at(0, 1));
    assert_eq!(position_of(text, 3), at(0, 2));
}

#[test]
fn three_byte_character_is_one_code_unit() {
    let text = "\u{65e5}\u{672c}";
    assert_eq!(text.len(), 6);
    assert_eq!(position_of(text, 3), at(0, 1));
    assert_eq!(position_of(text, 6), at(0, 2));
}

#[test]
fn four_byte_character_is_two_code_units() {
    let text = "a\u{1f600}b\n\u{1f600}";
    assert_eq!(text.len(), 11);
    assert_eq!(position_of(text, 1), at(0, 1));
    assert_eq!(position_of(text, 5), at(0, 3));
    assert_eq!(position_of(text, 6), at(0, 4));
    assert_eq!(position_of(text, 7), at(1, 0));
    assert_eq!(position_of(text, 11), at(1, 2));
}

#[test]
fn column_agrees_with_utf16_length_at_every_boundary() {
    let text = "x = \u{3b1}\u{3b2}; \u{1f980} \u{65e5}!\nnext \u{1f600}\u{e9}";
    for offset in 0..=text.len() {
        if !text.is_char_boundary(offset) {
            continue;
        }
        let before = &text[..offset];
        let line_start = before.rfind('\n').map(|i| i + 1).unwrap_or(0);
        let expected = at(
            before.matches('\n').count(),
            text[line_start..offset].encode_utf16().count(),
        );
        assert_eq!(position_of(text, offset), expected);
    }
}
