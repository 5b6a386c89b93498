use silos::mapper::{string_range_index, Position, TextRange};

fn range(start_line: u32, start_char: u32, end_line: u32, end_char: u32) -> TextRange {
    TextRange {
        start: Position { line: start_line, character: start_char },
        end: Position { line: end_line, character: end_char },
    }
}

#[test]
fn middle_line_exact() {
    let text = "line1\nline2\nline3";
    assert_eq!(string_range_index(text, range(1, 0, 1, 5)), "line2");
}

#[test]
fn empty_document_empty_range() {
    assert_eq!(string_range_index("", range(0, 0, 0, 0)), "");
}

#[test]
fn multibyte_counted_by_codepoint() {
    let text = "h\u{e9}llo\nworld";
    assert_eq!(string_range_index(text, range(0, 1, 0, 3)), "\u{e9}l");
}

#[test]
fn multibyte_across_lines() {
    let text = "caf\u{e9}\nth\u{e9}";
    assert_eq!(string_range_index(text, range(0, 3, 1, 3)), "\u{e9}\nth\u{e9}");
}

#[test]
fn start_line_out_of_bounds_defaults_to_zero() {
    let text = "a\nb";
    assert_eq!(string_range_index(text, range(5, 0, 1, 1)), "a\nb");
}

#[test]
fn end_line_out_of_bounds_defaults_to_text_end() {
    let text = "a\nb";
    assert_eq!(string_range_index(text, range(0, 1, 9, 0)), "\nb");
}

#[test]
fn both_lines_out_of_bounds_give_whole_text() {
    let text = "one\ntwo";
    assert_eq!(string_range_index(text, range(7, 3, 8, 1)), "one\ntwo");
}

#[test]
fn end_before_start_gives_empty() {
    let text = "ab\ncd";
    assert_eq!(string_range_index(text, range(1, 0, 0, 0)), "");
}

#[test]
fn character_spills_into_next_line() {
    let text = "ab\ncd";
    assert_eq!(string_range_index(text, range(0, 3, 1, 2)), "cd");
}

#[test]
fn character_past_text_end_is_clamped() {
    let text = "ab";
    assert_eq!(string_range_index(text, range(0, 5, 0, 9)), "");
}

#[test]
fn end_character_past_text_end_is_clamped() {
    let text = "ab";
    assert_eq!(string_range_index(text, range(0, 0, 0, 9)), "ab");
}

#[test]
fn final_line_without_trailing_newline_resolves_to_true_end() {
    let text = "ab\ncd";
    assert_eq!(string_range_index(text, range(1, 0, 1, 2)), "cd");
}

#[test]
fn line_after_trailing_newline_is_never_reached() {
    let text = "ab\n";
    assert_eq!(string_range_index(text, range(1, 0, 1, 0)), "ab\n");
}

#[test]
fn whole_text_range() {
    let text = "line1\nline2\nline3";
    assert_eq!(string_range_index(text, range(0, 0, 2, 5)), text);
}

#[test]
fn self_edit_round_trip_on_concrete_text() {
    let text = "alpha\nbeta\ngamma";
    let r = range(1, 1, 2, 3);
    let slice = string_range_index(text, r);
    assert_eq!(slice, "eta\ngam");
    let start: usize = 7;
    let end: usize = 14;
    let rebuilt = format!("{}{}{}", &text[..start], slice, &text[end..]);
    assert_eq!(rebuilt, text);
}
