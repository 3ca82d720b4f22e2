use changelog_yaml::pattern::check_spans;
use changelog_yaml::text::{
    decimal_text, digit_text, drop_first_char, is_white_space_char, parse_decimal, same_text,
    slice_between, split_at_first, trim, upper_hex_text,
};

#[test]
fn white_space_is_what_the_standard_library_calls_white_space() {
    let mut code: u32 = 0;
    while code <= 0x10FFFF {
        if let Some(c) = char::from_u32(code) {
            assert_eq!(is_white_space_char(c), c.is_whitespace(), "U+{:04X}", code);
        }
        code += 1;
    }
}

#[test]
fn trim_agrees_with_the_standard_library() {
    let samples = [
        "",
        " ",
        "\t\n\r ",
        "a",
        " a",
        "a ",
        "  a b  ",
        "\u{3000}wide\u{2003}",
        "\u{a0}nbsp\u{a0}",
        "\u{85}next line\u{2028}\u{2029}",
        "inner  space",
        "\u{200b}zero width is no space\u{200b}",
        " \u{e9}t\u{e9} ",
        "\n\nNOTE: x\n",
        "\u{1680}\u{202f}\u{205f}x\u{2000}\u{200a}",
    ];
    for s in samples {
        assert_eq!(trim(s), s.trim(), "{:?}", s);
    }
    assert_eq!(trim("  a b \n"), "a b");
    assert_eq!(trim(" \t "), "");
}

#[test]
fn same_text_tells_equal_from_different() {
    assert!(same_text("", ""));
    assert!(same_text("abc", "abc"));
    assert!(same_text("\u{e9}\u{1F600}", "\u{e9}\u{1F600}"));
    assert!(!same_text("abc", "abd"));
    assert!(!same_text("abc", "ab"));
    assert!(!same_text("", "a"));
    assert!(!same_text("e\u{301}", "\u{e9}"));
}

#[test]
fn drop_first_char_drops_one_character() {
    assert_eq!(drop_first_char("@bob"), "bob");
    assert_eq!(drop_first_char("\u{1F600}x"), "x");
    assert_eq!(drop_first_char("x"), "");
    assert_eq!(drop_first_char(""), "");
}

#[test]
fn split_at_first_cuts_at_the_first_occurrence() {
    assert_eq!(split_at_first("NOTE: a: b", ':'), Some(("NOTE", " a: b")));
    assert_eq!(split_at_first(":x", ':'), Some(("", "x")));
    assert_eq!(split_at_first("x:", ':'), Some(("x", "")));
    assert_eq!(split_at_first("\u{e9}\u{e9}:\u{1F600}", ':'), Some(("\u{e9}\u{e9}", "\u{1F600}")));
    assert_eq!(split_at_first("no colon", ':'), None);
    assert_eq!(split_at_first("", ':'), None);
}

#[test]
fn slice_between_cuts_at_byte_offsets() {
    let text = "h\u{e9}llo w\u{f6}rld";
    assert_eq!(slice_between(text, 0, text.len()), text);
    assert_eq!(slice_between(text, 0, 0), "");
    assert_eq!(slice_between(text, 0, 3), "h\u{e9}");
    assert_eq!(slice_between(text, 3, 7), "llo ");
    assert_eq!(slice_between(text, 7, text.len()), "w\u{f6}rld");
    assert_eq!(slice_between(text, text.len(), text.len()), "");
}

#[test]
fn check_spans_accepts_what_can_be_cut() {
    let text = "h\u{e9}llo";
    assert!(check_spans(text, &vec![]));
    assert!(check_spans(text, &vec![(0, 1), (1, 3), (3, 6)]));
    assert!(check_spans(text, &vec![(3, 3), (3, 4)]));
    assert!(!check_spans(text, &vec![(0, 2)]));
    assert!(!check_spans(text, &vec![(2, 3)]));
    assert!(!check_spans(text, &vec![(3, 1)]));
    assert!(!check_spans(text, &vec![(0, 7)]));
    assert!(!check_spans(text, &vec![(0, 4), (3, 6)]));
    assert!(!check_spans(text, &vec![(3, 6), (0, 1)]));
}

#[test]
fn parse_decimal_reads_numerals_only() {
    assert_eq!(parse_decimal("0"), Some(0));
    assert_eq!(parse_decimal("42"), Some(42));
    assert_eq!(parse_decimal("007"), Some(7));
    assert_eq!(parse_decimal("1234567890"), Some(1234567890));
    assert_eq!(parse_decimal(""), None);
    assert_eq!(parse_decimal("4x"), None);
    assert_eq!(parse_decimal("x4"), None);
    assert_eq!(parse_decimal("+5"), None);
    assert_eq!(parse_decimal("-5"), None);
    assert_eq!(parse_decimal(" 5"), None);
    assert_eq!(parse_decimal("\u{663}"), None);
    assert_eq!(parse_decimal(&usize::MAX.to_string()), Some(usize::MAX));
    assert_eq!(parse_decimal("340282366920938463463374607431768211456"), None);
    let mut above = usize::MAX.to_string();
    above.push('0');
    assert_eq!(parse_decimal(&above), None);
}

#[test]
fn decimal_text_writes_as_the_standard_library_does() {
    for n in [0usize, 1, 7, 9, 10, 11, 42, 99, 100, 101, 65535, 1234567890, usize::MAX - 1, usize::MAX] {
        assert_eq!(decimal_text(n), n.to_string());
        assert_eq!(parse_decimal(&decimal_text(n)), Some(n));
    }
    assert_eq!(decimal_text(120), "120");
}

#[test]
fn upper_hex_text_writes_as_the_standard_library_does() {
    for n in [0u32, 1, 9, 10, 15, 16, 255, 256, 0x26A1, 0x1F516, 0xABCDEF, u32::MAX] {
        assert_eq!(upper_hex_text(n), format!("{:X}", n));
    }
    assert_eq!(upper_hex_text(0x1F516), "1F516");
    assert_eq!(upper_hex_text(0), "0");
}

#[test]
fn digit_text_gives_the_sixteen_digits() {
    let expected = ["0", "1", "2", "3", "4", "5", "6", "7", "8", "9", "A", "B", "C", "D", "E", "F"];
    for d in 0..16 {
        assert_eq!(digit_text(d), expected[d]);
    }
}
