use oxi_harness::decimal::{format_i32, format_u32, parse_u32_range};
use oxi_harness::text::{chars_of, find_from, is_whitespace_char, matches_at, trim_range};

fn chars(text: &str) -> Vec<char> {
    text.chars().collect()
}

#[test]
fn white_space_is_what_the_standard_library_calls_so() {
    let mut c = '\0';
    loop {
        assert_eq!(is_whitespace_char(c), c.is_whitespace(), "{:?}", c);
        if c == char::MAX {
            break;
        }
        c = char::from_u32(c as u32 + 1).unwrap_or('\u{e000}');
    }
}

#[test]
fn chars_of_gives_the_characters_in_order() {
    assert_eq!(chars_of(""), Vec::<char>::new());
    assert_eq!(chars_of("a\u{e9}\u{4e16}\u{1f600}z"), vec!['a', '\u{e9}', '\u{4e16}', '\u{1f600}', 'z']);
}

#[test]
fn trim_range_agrees_with_the_standard_library() {
    for text in [
        "",
        " ",
        "\n\t \r",
        "a",
        " a",
        "a ",
        "  a b  ",
        "\u{a0}x\u{3000}",
        "\u{2000}\u{200a}inner \u{2028} space\u{2029}\u{202f}\u{205f}\u{1680}\u{85}",
        "\u{200b}zero width is kept\u{200b}",
        "\u{feff}bom",
    ] {
        let all = chars(text);
        let (from, to) = trim_range(&all, 0, all.len());
        let trimmed: String = all[from..to].iter().collect();
        assert_eq!(trimmed, text.trim(), "{text:?}");
    }
}

#[test]
fn trim_range_gives_bounds_within_the_range() {
    let text = chars("xx  ab  yy");
    assert_eq!(trim_range(&text, 2, 8), (4, 6));
    assert_eq!(trim_range(&text, 0, 10), (0, 10));
    assert_eq!(trim_range(&text, 2, 4), (4, 4));
    assert_eq!(trim_range(&text, 3, 3), (3, 3));
}

#[test]
fn matches_at_compares_in_place() {
    let text = chars("abcabc");
    assert!(matches_at(&text, 0, &chars("abc")));
    assert!(matches_at(&text, 3, &chars("abc")));
    assert!(!matches_at(&text, 1, &chars("abc")));
    assert!(!matches_at(&text, 4, &chars("abc")));
    assert!(matches_at(&text, 6, &chars("")));
    assert!(!matches_at(&text, 7, &chars("")));
    assert!(!matches_at(&chars("ab"), 0, &chars("abc")));
}

#[test]
fn find_from_agrees_with_the_standard_library() {
    let cases = [
        ("", ""),
        ("", "a"),
        ("abc", ""),
        ("abcabc", "abc"),
        ("aaab", "aab"),
        ("error:error:", "error:"),
        ("xx\u{e9}yy\u{e9}", "\u{e9}"),
        ("thread", "thread:"),
        ("a:b:c", ":"),
    ];
    for (text, pattern) in cases {
        let all = chars(text);
        for start in 0..=all.len() {
            let tail: String = all[start..].iter().collect();
            let expected = tail.find(pattern).map(|bytes| start + tail[..bytes].chars().count());
            assert_eq!(find_from(&all, start, &chars(pattern)), expected, "{text:?} {pattern:?} {start}");
        }
    }
}

#[test]
fn format_u32_writes_decimal() {
    for n in [0u32, 1, 9, 10, 11, 42, 99, 100, 101, 1000, 65535, 4294967294, 4294967295] {
        assert_eq!(format_u32(n), n.to_string());
    }
    assert_eq!(format_u32(42), "42");
    assert_eq!(format_u32(4294967295), "4294967295");
}

#[test]
fn format_i32_writes_the_sign() {
    for i in [0i32, 1, -1, 9, -9, 10, -10, 255, -255, i32::MAX, i32::MIN, i32::MIN + 1] {
        assert_eq!(format_i32(i), i.to_string());
    }
    assert_eq!(format_i32(-2147483648), "-2147483648");
}

#[test]
fn parse_agrees_with_the_standard_library() {
    for text in [
        "", "0", "7", "42", "+42", "-42", "+", "-", "++1", "+-1", "007", "+007", "4294967295",
        "4294967296", "42949672950", "00004294967295", "99999999999999999999999", "1a", "a1",
        " 1", "1 ", "1_000", "\u{661}\u{662}", "1.0", "0x1f",
    ] {
        let all = chars(text);
        assert_eq!(parse_u32_range(&all, 0, all.len()), text.parse::<u32>().ok(), "{text:?}");
    }
}

#[test]
fn parse_reads_only_the_range() {
    let all = chars("ab123cd");
    assert_eq!(parse_u32_range(&all, 2, 5), Some(123));
    assert_eq!(parse_u32_range(&all, 2, 4), Some(12));
    assert_eq!(parse_u32_range(&all, 1, 5), None);
    assert_eq!(parse_u32_range(&all, 3, 3), None);
}

#[test]
fn what_is_written_is_read_back() {
    for n in [0u32, 5, 10, 99, 12345, 4294967295] {
        let all = chars(&format_u32(n));
        assert_eq!(parse_u32_range(&all, 0, all.len()), Some(n));
    }
}
