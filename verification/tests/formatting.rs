use rwc::config::Config;
use rwc::count::{count_content, Counts};
use rwc::output::format_output;

fn argv(parts: &[&str]) -> Vec<String> {
    parts.iter().map(|s| s.to_string()).collect()
}

#[test]
fn default_output_has_three_fields_and_the_name() {
    let cfg = Config::new(&argv(&["wc", "x.txt"])).unwrap();
    let c = count_content(b"a b\nc\n");
    let line = format_output(&cfg, &c);
    assert_eq!(line, "       2       3       6 x.txt");
}

#[test]
fn explicit_flags_print_in_category_order() {
    // -c -l prints lines first, then bytes: the order is by category,
    // not by the order the flags were given in
    let cfg = Config::new(&argv(&["wc", "-c", "-l", "x.txt"])).unwrap();
    let c = count_content(b"a b\nc\n");
    let line = format_output(&cfg, &c);
    assert_eq!(line, "       2       6 x.txt");
}

#[test]
fn standard_input_output_ends_with_a_space() {
    let cfg = Config::new(&argv(&["wc"])).unwrap();
    let c = count_content(b"");
    assert_eq!(format_output(&cfg, &c), "       0       0       0 ");
}

#[test]
fn character_count_field_is_last() {
    let cfg = Config::new(&argv(&["wc", "-lwcm", "f"])).unwrap();
    let c = count_content("h\u{e9}llo\n".as_bytes());
    assert_eq!(format_output(&cfg, &c), "       1       1       7       6 f");
}

#[test]
fn wide_numbers_are_not_truncated() {
    let cfg = Config {
        show_lines: true,
        show_words: false,
        show_bytes: false,
        show_chars: false,
        filename: None,
    };
    let c = Counts { lines: 123456789, words: 0, bytes: 0, chars: 0 };
    assert_eq!(format_output(&cfg, &c), "123456789 ");
}

#[test]
fn eight_wide_numbers_get_no_padding() {
    let cfg = Config {
        show_lines: true,
        show_words: false,
        show_bytes: false,
        show_chars: false,
        filename: Some("big".to_string()),
    };
    let c = Counts { lines: 12345678, words: 0, bytes: 0, chars: 0 };
    assert_eq!(format_output(&cfg, &c), "12345678 big");
}
