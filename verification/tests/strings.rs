use tform::strings::{
    byte_len, decimal, encoded_width, is_blank, is_white_space, joined, lex_less, make_caption,
    next_boundary, prefix_before, prev_boundary, to_chars,
};

#[test]
fn byte_len_counts_bytes() {
    assert_eq!(byte_len(""), 0);
    assert_eq!(byte_len("abc"), 3);
    assert_eq!(byte_len("é"), 2);
    assert_eq!(byte_len("日本"), 6);
    assert_eq!(byte_len("😀"), 4);
}

#[test]
fn encoded_width_matches_the_encoding() {
    for c in ['a', '\u{7f}', '\u{80}', 'é', '\u{7ff}', '\u{800}', '日', '\u{ffff}', '\u{10000}', '😀', '\u{10ffff}', '\0'] {
        assert_eq!(encoded_width(c), c.len_utf8());
    }
}

#[test]
fn boundaries_step_over_whole_characters() {
    let s = "aé日😀b";
    assert_eq!(next_boundary(s, 0), 1);
    assert_eq!(next_boundary(s, 1), 3);
    assert_eq!(next_boundary(s, 3), 6);
    assert_eq!(next_boundary(s, 6), 10);
    assert_eq!(next_boundary(s, 10), 11);
    assert_eq!(prev_boundary(s, 11), 10);
    assert_eq!(prev_boundary(s, 10), 6);
    assert_eq!(prev_boundary(s, 6), 3);
    assert_eq!(prev_boundary(s, 3), 1);
    assert_eq!(prev_boundary(s, 1), 0);
}

#[test]
fn prefix_before_cuts_at_the_offset() {
    assert_eq!(prefix_before("aé日", 0), "");
    assert_eq!(prefix_before("aé日", 1), "a");
    assert_eq!(prefix_before("aé日", 3), "aé");
    assert_eq!(prefix_before("aé日", 6), "aé日");
}

#[test]
fn to_chars_lists_the_characters() {
    assert_eq!(to_chars(""), Vec::<char>::new());
    assert_eq!(to_chars("aé日"), vec!['a', 'é', '日']);
}

#[test]
fn blank_means_nothing_but_white_space() {
    assert!(is_blank(""));
    assert!(is_blank("   "));
    assert!(is_blank(" \t\r\n"));
    assert!(is_blank("\u{a0}\u{3000}\u{2003}"));
    assert!(!is_blank("a"));
    assert!(!is_blank("  a  "));
    assert!(!is_blank("\u{200b}"));
    for s in ["", " ", "x", " x ", "\u{a0}", "\u{85}", "_"] {
        assert_eq!(is_blank(s), s.trim().is_empty());
    }
}

#[test]
fn lex_less_orders_like_strings() {
    let samples = ["", "a", "ab", "b", "2024-01-01", "2024-02-01", "2024-01-10", "é", "z", "日", "😀", "A"];
    for a in samples {
        for b in samples {
            assert_eq!(lex_less(a, b), a < b, "{:?} < {:?}", a, b);
        }
    }
}

#[test]
fn lex_less_on_dates() {
    assert!(lex_less("2024-01-01", "2024-02-01"));
    assert!(!lex_less("2024-02-01", "2024-01-01"));
    assert!(!lex_less("2024-02-01", "2024-02-01"));
}

#[test]
fn decimal_writes_base_ten() {
    assert_eq!(decimal(0), "0");
    assert_eq!(decimal(7), "7");
    assert_eq!(decimal(10), "10");
    assert_eq!(decimal(120), "120");
    assert_eq!(decimal(9876543210), "9876543210");
    assert_eq!(decimal(usize::MAX), usize::MAX.to_string());
}

#[test]
fn joined_puts_one_string_behind_the_other() {
    assert_eq!(joined("", ""), "");
    assert_eq!(joined("ab", "cd"), "abcd");
    assert_eq!(joined("é", "日"), "é日");
}

#[test]
fn caption_marks_required_fields() {
    assert_eq!(make_caption("Name", true, ": "), "Name*: ");
    assert_eq!(make_caption("Name", false, ": "), "Name: ");
    assert_eq!(make_caption("", true, ""), "*");
}

#[test]
fn white_space_is_the_unicode_property() {
    for v in 0..=0x10ffffu32 {
        if let Some(c) = char::from_u32(v) {
            assert_eq!(is_white_space(c), c.is_whitespace(), "U+{:04X}", v);
        }
    }
}
