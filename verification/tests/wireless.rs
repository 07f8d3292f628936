use statusbar::wireless::{find_field, find_line, is_blank, signal_field, LEVEL_FIELD, LEVEL_LINE};

const TABLE: &str = "Inter-| sta-|   Quality        |   Discarded packets               | Missed | WE\n face | tus | link level noise |  nwid  crypt   frag  retry   misc | beacon | 22\nwlp1s0: 0000   58.  -52.  -256        0      0      0      0      0        0\n";

#[test]
fn level_is_third_field_of_third_line() {
    assert_eq!(signal_field(TABLE), Some("58."));
}

#[test]
fn level_positions() {
    assert_eq!(LEVEL_LINE, 2);
    assert_eq!(LEVEL_FIELD, 2);
}

#[test]
fn table_without_interface_has_no_level() {
    let header = "Inter-| sta-|   Quality\n face | tus | link level noise\n";
    assert_eq!(signal_field(header), None);
    assert_eq!(signal_field(""), None);
    assert_eq!(signal_field("a b c"), None);
    assert_eq!(signal_field("a b c\nd e f"), None);
    assert_eq!(signal_field("\n\n"), None);
    assert_eq!(signal_field("\n\n\n"), None);
}

#[test]
fn short_third_line_has_no_level() {
    assert_eq!(signal_field("h\nh\nwlp1s0: 0000\n"), None);
    assert_eq!(signal_field("h\nh\nwlp1s0: 0000   \n70 1 2\n"), None);
    assert_eq!(signal_field("h\nh\n   \n"), None);
}

#[test]
fn level_ends_at_line_end_or_text_end() {
    assert_eq!(signal_field("h\nh\na b c"), Some("c"));
    assert_eq!(signal_field("h\nh\na b c\n"), Some("c"));
    assert_eq!(signal_field("h\nh\na b c\r\n"), Some("c"));
    assert_eq!(signal_field("h\nh\n  a\tb \u{a0} c  d\nx"), Some("c"));
    assert_eq!(signal_field("\n\nx y 70 z"), Some("70"));
}

#[test]
fn level_may_hold_wide_characters() {
    assert_eq!(signal_field("\u{e9}\n\u{4e2d}\n\u{e9} \u{4e2d}\u{3000}\u{e9}\u{4e2d} z"), Some("\u{e9}\u{4e2d}"));
}

#[test]
fn level_agrees_with_line_and_field_iterators() {
    let tables = [
        TABLE,
        "",
        "\n",
        "a\n\nb c d e\n",
        "a\nb\n c\n",
        "a\r\nb\r\n1 2 3\r\n",
        "1\n2\n \t x\u{2003}y\u{85}zz\u{1680}w\n",
        "1\n2\n3 4 5",
        "1\n2\n3 4 ",
    ];
    for table in tables {
        let expected = table.lines().nth(2).and_then(|line| line.split_whitespace().nth(2));
        assert_eq!(signal_field(table), expected);
    }
}

#[test]
fn find_line_counts_line_feeds() {
    assert_eq!(find_line("ab\ncd\nef", 0), Some(0));
    assert_eq!(find_line("ab\ncd\nef", 1), Some(3));
    assert_eq!(find_line("ab\ncd\nef", 2), Some(6));
    assert_eq!(find_line("ab\ncd\nef", 3), None);
    assert_eq!(find_line("ab\ncd\n", 2), Some(6));
    assert_eq!(find_line("", 0), Some(0));
    assert_eq!(find_line("", 1), None);
}

#[test]
fn find_field_skips_blanks_within_the_line() {
    assert_eq!(find_field("  ab cd", 0, 0), Some((2, 4)));
    assert_eq!(find_field("  ab cd", 0, 1), Some((5, 7)));
    assert_eq!(find_field("  ab cd", 0, 2), None);
    assert_eq!(find_field("ab\ncd", 0, 1), None);
    assert_eq!(find_field("ab\ncd", 3, 0), Some((3, 5)));
    assert_eq!(find_field("ab", 2, 0), None);
    assert_eq!(find_field("\u{e9}\u{e9} x", 0, 1), Some((3, 4)));
}

#[test]
fn is_blank_agrees_with_unicode_white_space() {
    for n in 0..=0x10ffffu32 {
        if let Some(c) = char::from_u32(n) {
            assert_eq!(is_blank(c), c.is_whitespace());
        }
    }
}
