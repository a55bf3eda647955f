use postbot::text::{
    append_decimal, append_signed, clone_texts, decimal_string, eq_ignoring_case, join,
    split_unicode_words, split_words,
};

fn strings(items: &[&str]) -> Vec<String> {
    items.iter().map(|s| s.to_string()).collect()
}

#[test]
fn decimal_of_small_and_large_numbers() {
    assert_eq!(decimal_string(0), "0");
    assert_eq!(decimal_string(7), "7");
    assert_eq!(decimal_string(10), "10");
    assert_eq!(decimal_string(1234567890), "1234567890");
    assert_eq!(decimal_string(u64::MAX), "18446744073709551615");
    for n in [1u64, 9, 99, 100, 101, 4096, 999_999, 1_000_000] {
        assert_eq!(decimal_string(n), n.to_string());
    }
}

#[test]
fn append_decimal_keeps_what_was_there() {
    let mut text = String::from("n=");
    append_decimal(&mut text, 42);
    assert_eq!(text, "n=42");
}

#[test]
fn append_signed_writes_the_sign() {
    for n in [0i64, 1, -1, 17, -17, i64::MAX, i64::MIN, i64::MIN + 1] {
        let mut text = String::from("x");
        append_signed(&mut text, n);
        assert_eq!(text, format!("x{}", n));
    }
}

#[test]
fn join_puts_the_separator_between_items() {
    assert_eq!(join(&strings(&[]), ", "), "");
    assert_eq!(join(&strings(&["a"]), ", "), "a");
    assert_eq!(join(&strings(&["a", "b", "c"]), ", "), "a, b, c");
    assert_eq!(join(&strings(&["", ""]), "-"), "-");
    assert_eq!(join(&strings(&["a", "b"]), ""), "ab");
}

#[test]
fn split_words_splits_at_ascii_white_space() {
    assert_eq!(split_words(""), strings(&[]));
    assert_eq!(split_words("   \t\n"), strings(&[]));
    assert_eq!(split_words("one"), strings(&["one"]));
    assert_eq!(split_words(" one  two\tthree\nfour\r\x0Cfive "), strings(&["one", "two", "three", "four", "five"]));
    assert_eq!(split_words("pokémon_(species) -abs"), strings(&["pokémon_(species)", "-abs"]));
    assert_eq!(split_words("a\u{00A0}b"), strings(&["a\u{00A0}b"]));
    for text in ["", " ", "a b", "  a  b  ", "x\ty\nz", "é è"] {
        let expected: Vec<String> = text.split_ascii_whitespace().map(|s| s.to_string()).collect();
        assert_eq!(split_words(text), expected);
    }
}

#[test]
fn clone_texts_copies_each_item() {
    let items = strings(&["a", "", "ccc"]);
    assert_eq!(clone_texts(&items), items);
    assert_eq!(clone_texts(&Vec::new()), Vec::<String>::new());
}

#[test]
fn eq_ignoring_case_compares_ascii_letters_only() {
    assert!(eq_ignoring_case("", ""));
    assert!(eq_ignoring_case("nsfw", "NSFW"));
    assert!(eq_ignoring_case("NsFw", "nSfW"));
    assert!(!eq_ignoring_case("nsfw", "nsfw "));
    assert!(!eq_ignoring_case("nsfw", "sfw"));
    assert!(!eq_ignoring_case("é", "É"));
    assert!(!eq_ignoring_case("[", "{"));
    assert!(!eq_ignoring_case("@", "`"));
    for (left, right) in [("a", "A"), ("z", "Z"), ("a1", "A1"), ("a", "b"), ("abc", "abd")] {
        assert_eq!(eq_ignoring_case(left, right), left.eq_ignore_ascii_case(right));
    }
}

#[test]
fn split_unicode_words_splits_at_every_white_space() {
    assert_eq!(split_unicode_words(""), strings(&[]));
    assert_eq!(split_unicode_words("a\u{00A0}b"), strings(&["a", "b"]));
    assert_eq!(split_unicode_words(" 5 6\t7 "), strings(&["5", "6", "7"]));
    let spaces = [
        '\u{0009}', '\u{000A}', '\u{000B}', '\u{000C}', '\u{000D}', '\u{0020}', '\u{0085}',
        '\u{00A0}', '\u{1680}', '\u{2000}', '\u{2001}', '\u{2005}', '\u{200A}', '\u{2028}',
        '\u{2029}', '\u{202F}', '\u{205F}', '\u{3000}',
    ];
    for space in spaces {
        let text = format!("x{space}y");
        assert_eq!(split_unicode_words(&text), strings(&["x", "y"]), "{:?}", space);
    }
    for other in ['\u{0008}', '\u{000E}', '\u{001F}', '\u{200B}', '\u{2060}', '\u{FEFF}', '_', '0'] {
        let text = format!("x{other}y");
        let expected: Vec<String> = text.split_whitespace().map(|s| s.to_string()).collect();
        assert_eq!(split_unicode_words(&text), expected, "{:?}", other);
        assert_eq!(expected.len(), 1);
    }
    for code in 0u32..0x3100 {
        if let Some(c) = char::from_u32(code) {
            let text = format!("x{c}y");
            let expected: Vec<String> = text.split_whitespace().map(|s| s.to_string()).collect();
            assert_eq!(split_unicode_words(&text), expected, "{:?}", c);
        }
    }
}

#[test]
fn split_words_agrees_with_the_standard_splitter_on_every_ascii_character() {
    for code in 0u32..0x100 {
        if let Some(c) = char::from_u32(code) {
            let text = format!("x{c}y");
            let expected: Vec<String> =
                text.split_ascii_whitespace().map(|s| s.to_string()).collect();
            assert_eq!(split_words(&text), expected, "{:?}", c);
        }
    }
}
