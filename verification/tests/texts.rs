use deeptranslator::text::{char_is_whitespace, chars_of, decimal_text, erase, same_text, trim};

#[test]
fn white_space_is_what_unicode_says() {
    let mut code: u32 = 0;
    while code <= 0x10FFFF {
        if let Some(c) = char::from_u32(code) {
            assert_eq!(char_is_whitespace(c), c.is_whitespace(), "U+{:04X}", code);
        }
        code += 1;
    }
}

#[test]
fn trim_takes_white_space_off_both_ends() {
    assert_eq!(trim("  hello world \n"), "hello world");
    assert_eq!(trim("hello"), "hello");
    assert_eq!(trim("\u{3000}a\u{a0}b\u{2028}"), "a\u{a0}b");
    assert_eq!(trim("x "), "x");
    assert_eq!(trim(" x"), "x");
    assert_eq!(trim("\u{feff}x"), "\u{feff}x");
}

#[test]
fn trim_of_blank_text_is_empty() {
    assert_eq!(trim(""), "");
    assert_eq!(trim(" "), "");
    assert_eq!(trim("\t\n\r \u{85}\u{1680}"), "");
}

#[test]
fn trim_agrees_with_the_standard_library() {
    for sample in ["", " ", "a", " a", "a ", " a ", "  a b  ", "\n\n", "é ", " \u{1F600} ", "\u{2003}日本語\u{2003}", "a\u{0}", " \u{200B} "] {
        assert_eq!(trim(sample), sample.trim(), "{:?}", sample);
    }
}

#[test]
fn erase_takes_every_occurrence_out() {
    assert_eq!(erase("run (sth.) (sth.)", "(sth.)"), "run  ");
    assert_eq!(erase("aaa", "aa"), "a");
    assert_eq!(erase("abcabc", "bc"), "aa");
    assert_eq!(erase("abc", "abc"), "");
    assert_eq!(erase("abc", "abcd"), "abc");
    assert_eq!(erase("abc", "x"), "abc");
    assert_eq!(erase("", "x"), "");
    assert_eq!(erase("ababa", "aba"), "ba");
}

#[test]
fn erase_of_nothing_changes_nothing() {
    assert_eq!(erase("abc", ""), "abc");
    assert_eq!(erase("", ""), "");
}

#[test]
fn erase_agrees_with_the_standard_library() {
    let texts = ["", "a", "aa", "aaa", "aaaa", "abab", "ababab", "baab", "日本語日本", "x\u{1F600}y\u{1F600}"];
    let patterns = ["", "a", "aa", "ab", "ba", "b", "日本", "\u{1F600}", "aaaaa"];
    for text in texts {
        for pattern in patterns {
            assert_eq!(erase(text, pattern), text.replace(pattern, ""), "{:?} without {:?}", text, pattern);
        }
    }
}

#[test]
fn decimal_text_writes_numbers_as_usual() {
    assert_eq!(decimal_text(0), "0");
    assert_eq!(decimal_text(7), "7");
    assert_eq!(decimal_text(10), "10");
    assert_eq!(decimal_text(429), "429");
    assert_eq!(decimal_text(500), "500");
    assert_eq!(decimal_text(1234567890), "1234567890");
    assert_eq!(decimal_text(usize::MAX), usize::MAX.to_string());
}

#[test]
fn chars_of_lists_the_characters() {
    assert_eq!(chars_of("aé日"), vec!['a', 'é', '日']);
    assert_eq!(chars_of(""), Vec::<char>::new());
}

#[test]
fn same_text_compares_characters() {
    assert!(same_text("abc", "abc"));
    assert!(same_text("", ""));
    assert!(!same_text("abc", "abd"));
    assert!(!same_text("abc", "ab"));
}
