use blog::text::{chars_of, clone_strings, decimal_string, join2, join3, same_text, string_of, trim};

#[test]
fn trim_removes_whitespace_at_both_ends() {
    assert_eq!(trim("  a b \n"), "a b");
    assert_eq!(trim("\t\u{a0}x\u{2003}"), "x");
    assert_eq!(trim("x"), "x");
    assert_eq!(trim(""), "");
    assert_eq!(trim(" \n\t "), "");
}

#[test]
fn trim_agrees_with_the_standard_library() {
    for text in ["", " ", "a", " a", "a ", "  a  b  ", "\u{feff}a", "\u{85}a\u{1680}"] {
        assert_eq!(trim(text), text.trim());
    }
}

#[test]
fn decimal_numerals() {
    assert_eq!(decimal_string(0), "0");
    assert_eq!(decimal_string(7), "7");
    assert_eq!(decimal_string(10), "10");
    assert_eq!(decimal_string(12345), "12345");
    assert_eq!(decimal_string(usize::MAX), usize::MAX.to_string());
}

#[test]
fn characters_and_back() {
    let chars = chars_of("h\u{e9}llo");
    assert_eq!(chars, vec!['h', '\u{e9}', 'l', 'l', 'o']);
    assert_eq!(string_of(&chars, 1, 3), "\u{e9}l");
    assert_eq!(string_of(&chars, 2, 2), "");
    assert_eq!(string_of(&chars, 0, 5), "h\u{e9}llo");
}

#[test]
fn joining_and_comparing() {
    assert_eq!(join2("a", "b"), "ab");
    assert_eq!(join3("a", "", "c"), "ac");
    assert!(same_text("ab", "ab"));
    assert!(!same_text("ab", "abc"));
    assert_eq!(clone_strings(&vec!["x".to_string(), "y".to_string()]), vec!["x", "y"]);
}
