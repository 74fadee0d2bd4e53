use minerve::text::{
    char_is_whitespace, is_blank, concat2, concat3, contains_char, contains_text, decimal, equal, from_chars,
    has_prefix, join, push_repeated, to_chars, trim, trim_bounds, truncate,
};

#[test]
fn to_chars_and_back() {
    let chars = to_chars("héllo ✓");
    assert_eq!(chars, vec!['h', 'é', 'l', 'l', 'o', ' ', '✓']);
    assert_eq!(from_chars(&chars, 0, chars.len()), "héllo ✓");
    assert_eq!(from_chars(&chars, 1, 4), "éll");
    assert_eq!(from_chars(&chars, 3, 3), "");
    assert_eq!(to_chars(""), Vec::<char>::new());
}

#[test]
fn equal_compares_characters() {
    assert!(equal("abc", "abc"));
    assert!(equal("", ""));
    assert!(!equal("abc", "abd"));
    assert!(!equal("abc", "ab"));
    assert!(!equal("ABC", "abc"));
}

#[test]
fn concat_puts_texts_in_a_row() {
    assert_eq!(concat2("ab", "cd"), "abcd");
    assert_eq!(concat2("", "x"), "x");
    assert_eq!(concat3("a", "", "c"), "ac");
    assert_eq!(concat3("[", "mid", "]"), "[mid]");
}

#[test]
fn join_puts_the_separator_between() {
    assert_eq!(join(&vec![], "\n"), "");
    assert_eq!(join(&vec!["a.txt".to_string()], "\n"), "a.txt");
    assert_eq!(join(&vec!["a.txt".to_string(), "b.txt".to_string()], "\n"), "a.txt\nb.txt");
    assert_eq!(join(&vec!["".to_string(), "".to_string(), "x".to_string()], ", "), ", , x");
}

#[test]
fn contains_text_finds_a_passage_anywhere() {
    assert!(contains_text("No such file or directory (os error 2)", "No such file or directory"));
    assert!(contains_text("abc", ""));
    assert!(contains_text("", ""));
    assert!(contains_text("abc", "c"));
    assert!(contains_text("abc", "abc"));
    assert!(contains_text("aab", "ab"));
    assert!(!contains_text("abc", "abcd"));
    assert!(!contains_text("abc", "ac"));
    assert!(!contains_text("", "a"));
}

#[test]
fn contains_char_and_prefix() {
    assert!(contains_char(&to_chars("fn x() {"), '{'));
    assert!(!contains_char(&to_chars("fn x()"), '{'));
    assert!(!contains_char(&to_chars(""), '{'));
    assert!(has_prefix(&to_chars("// note"), &to_chars("//")));
    assert!(has_prefix(&to_chars("//"), &to_chars("//")));
    assert!(has_prefix(&to_chars("x"), &to_chars("")));
    assert!(!has_prefix(&to_chars("/"), &to_chars("//")));
    assert!(!has_prefix(&to_chars("a//"), &to_chars("//")));
}

#[test]
fn whitespace_is_what_std_calls_whitespace() {
    let mut code: u32 = 0;
    while code <= 0x3100 {
        if let Some(c) = char::from_u32(code) {
            assert_eq!(char_is_whitespace(c), c.is_whitespace(), "U+{:04X}", code);
        }
        code += 1;
    }
    assert!(!char_is_whitespace('\u{FEFF}'));
    assert!(!char_is_whitespace('\u{200B}'));
}

#[test]
fn trim_agrees_with_std() {
    for s in [
        "",
        " ",
        "\t\n x \r\n",
        "x",
        "  two words  ",
        "\u{3000}wide\u{a0}",
        "\u{2003}em\u{2003}",
        "no-trim",
        " \u{200b} ",
    ] {
        assert_eq!(trim(s), s.trim(), "input: {:?}", s);
    }
    assert_eq!(trim("  y\n"), "y");
}

#[test]
fn trim_bounds_mark_the_kept_part() {
    let chars = to_chars("  ab c \n");
    assert_eq!(trim_bounds(&chars), (2, 6));
    assert_eq!(trim_bounds(&to_chars("   ")), (3, 3));
    assert_eq!(trim_bounds(&to_chars("")), (0, 0));
}

#[test]
fn truncate_keeps_a_prefix_of_characters() {
    assert_eq!(truncate("abcdef".to_string(), 4), "abcd");
    assert_eq!(truncate("abc".to_string(), 3), "abc");
    assert_eq!(truncate("abc".to_string(), 10), "abc");
    assert_eq!(truncate("abc".to_string(), 0), "");
    assert_eq!(truncate("é✓é✓".to_string(), 3), "é✓é");
}

#[test]
fn push_repeated_appends_copies() {
    let mut out = "x".to_string();
    push_repeated(&mut out, "    ", 2);
    assert_eq!(out, "x        ");
    push_repeated(&mut out, "ab", 0);
    assert_eq!(out, "x        ");
    push_repeated(&mut out, "ab", 3);
    assert_eq!(out, "x        ababab");
}

#[test]
fn decimal_writes_numbers() {
    assert_eq!(decimal(0), "0");
    assert_eq!(decimal(7), "7");
    assert_eq!(decimal(10), "10");
    assert_eq!(decimal(109), "109");
    assert_eq!(decimal(1234567890), "1234567890");
    assert_eq!(decimal(usize::MAX), usize::MAX.to_string());
}

#[test]
fn blank_is_empty_or_white_space_only() {
    assert!(is_blank(""));
    assert!(is_blank(" \t\r\n\u{3000}"));
    assert!(!is_blank(" x "));
    assert!(!is_blank("\u{200b}"));
}
