use session_core::text::{
    char_is_whitespace, chars_of, contains_str, decimal_string, is_blank_str,
    parse_trimmed_lines, starts_with,
};

#[test]
fn whitespace_agrees_with_std_on_every_char() {
    let mut seen = 0u32;
    for n in 0..=0x10FFFFu32 {
        if let Some(c) = char::from_u32(n) {
            assert_eq!(char_is_whitespace(c), c.is_whitespace(), "U+{:04X}", n);
            if c.is_whitespace() {
                seen += 1;
            }
        }
    }
    assert_eq!(seen, 25);
}

#[test]
fn chars_of_keeps_every_char_in_order() {
    assert_eq!(chars_of(""), Vec::<char>::new());
    assert_eq!(chars_of("aé\u{3000}z"), vec!['a', 'é', '\u{3000}', 'z']);
}

#[test]
fn blank_means_empty_after_trim() {
    let samples = [
        "", " ", "\t\r\n", "\u{3000}\u{2028}", "a", " a ", "\n.\n", "   x", "x   ", "\u{a0}",
        "\u{200b}",
    ];
    for s in samples {
        assert_eq!(is_blank_str(s), s.trim().is_empty(), "{:?}", s);
    }
    assert!(is_blank_str(""));
    assert!(is_blank_str(" \t\n"));
    assert!(!is_blank_str(" hello "));
}

#[test]
fn starts_with_compares_the_first_chars() {
    assert!(starts_with("qwen-max", "qwen"));
    assert!(starts_with("qwen", "qwen"));
    assert!(!starts_with("qwe", "qwen"));
    assert!(!starts_with("Qwen-max", "qwen"));
    assert!(!starts_with("gpt-4-qwen", "qwen"));
    assert!(starts_with("", ""));
    assert!(starts_with("abc", ""));
    assert!(!starts_with("", "a"));
}

#[test]
fn contains_agrees_with_std() {
    let texts = ["", "a", "search", "please search the web", "researching", "thinking hard",
        "sea rch", "aaab", "ééé thinking", "SEARCH"];
    let needles = ["", "a", "search", "thinking", "ab", "aab", "é t", "b"];
    for t in texts {
        for n in needles {
            assert_eq!(contains_str(t, n), t.contains(n), "{:?} in {:?}", n, t);
        }
    }
    assert!(contains_str("web search please", "search"));
    assert!(!contains_str("sear", "search"));
    assert!(contains_str("abc", "c"));
    assert!(contains_str("abc", "abc"));
}

#[test]
fn decimal_string_writes_exact_numerals() {
    assert_eq!(decimal_string(0), "0");
    assert_eq!(decimal_string(7), "7");
    assert_eq!(decimal_string(10), "10");
    assert_eq!(decimal_string(109), "109");
    assert_eq!(decimal_string(1234567890), "1234567890");
    assert_eq!(decimal_string(u64::MAX), "18446744073709551615");
    for n in [1u64, 9, 11, 99, 100, 101, 999_999, 1_000_000, 1 << 40] {
        assert_eq!(decimal_string(n), n.to_string());
    }
}

fn std_trimmed_lines(contents: &str) -> Vec<String> {
    contents.lines().map(|l| l.trim().to_string()).filter(|l| !l.is_empty()).collect()
}

#[test]
fn trimmed_lines_of_a_token_file() {
    assert_eq!(parse_trimmed_lines("tok1\n  tok2  \r\n\n\t\ntok3"), vec!["tok1", "tok2", "tok3"]);
    assert_eq!(parse_trimmed_lines(""), Vec::<String>::new());
    assert_eq!(parse_trimmed_lines("\n\n \n"), Vec::<String>::new());
    assert_eq!(parse_trimmed_lines("a"), vec!["a"]);
    assert_eq!(parse_trimmed_lines("a\n"), vec!["a"]);
    assert_eq!(parse_trimmed_lines("\na"), vec!["a"]);
    assert_eq!(parse_trimmed_lines(" a b \n"), vec!["a b"]);
}

#[test]
fn trimmed_lines_agree_with_std() {
    let samples = [
        "", "\n", "a", "a\nb", "a\r\nb\r\n", "  x  \n\n\ny\t", "\u{3000}é \n é\u{a0}", "\r", "a\rb",
        "one\n two \n\tthree\n", "trailing space \n", "\n\n\nlast",
    ];
    for s in samples {
        assert_eq!(parse_trimmed_lines(s), std_trimmed_lines(s), "{:?}", s);
    }
}
