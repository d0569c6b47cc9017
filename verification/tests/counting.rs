use rwc::count::count_content;

#[test]
fn empty_input_has_zero_counts() {
    let c = count_content(b"");
    assert_eq!(c.lines, 0);
    assert_eq!(c.words, 0);
    assert_eq!(c.bytes, 0);
    assert_eq!(c.chars, 0);
}

#[test]
fn sample_text_counts() {
    let c = count_content(b"a b\nc\n");
    assert_eq!(c.lines, 2);
    assert_eq!(c.words, 3);
    assert_eq!(c.bytes, 6);
    assert_eq!(c.chars, 6);
}

#[test]
fn byte_count_is_raw_length_even_when_invalid() {
    let c = count_content(&[0xff, 0x61, 0xff]);
    assert_eq!(c.bytes, 3);
}

#[test]
fn multibyte_characters_count_once() {
    // "héllo": the é takes two bytes but is one character
    let c = count_content("h\u{e9}llo".as_bytes());
    assert_eq!(c.bytes, 6);
    assert_eq!(c.chars, 5);
    assert_eq!(c.words, 1);
    assert_eq!(c.lines, 1);
}

#[test]
fn truncated_sequence_counts_a_replacement_marker() {
    // 0xC3 alone is a truncated two-byte sequence: it decodes to one
    // replacement character, so the character count is two, not one
    let c = count_content(&[0x61, 0xc3]);
    assert_eq!(c.bytes, 2);
    assert_eq!(c.chars, 2);
}

#[test]
fn missing_final_newline_still_counts_a_line() {
    let c = count_content(b"abc");
    assert_eq!(c.lines, 1);
    assert_eq!(c.words, 1);
}

#[test]
fn whitespace_runs_collapse_between_words() {
    let c = count_content(b"  a\tb \r\nc  ");
    assert_eq!(c.lines, 2);
    assert_eq!(c.words, 3);
    assert_eq!(c.bytes, 11);
    assert_eq!(c.chars, 11);
}

#[test]
fn blank_lines_are_counted() {
    let c = count_content(b"\n\n");
    assert_eq!(c.lines, 2);
    assert_eq!(c.words, 0);
}

#[test]
fn only_whitespace_has_no_words() {
    let c = count_content(b" \t ");
    assert_eq!(c.lines, 1);
    assert_eq!(c.words, 0);
}
