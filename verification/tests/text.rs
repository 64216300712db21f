use rslogo::text::{
    copy, copy_all, i32_text, is_separator, is_whitespace, is_word, parse_i32, reverse, slice,
    split_whitespace, text_eq, to_chars,
};

fn chars_of(s: &str) -> Vec<char> {
    s.chars().collect()
}

fn strings(list: &Vec<Vec<char>>) -> Vec<String> {
    list.iter().map(|t| t.iter().collect()).collect()
}

#[test]
fn to_chars_keeps_every_character() {
    assert_eq!(to_chars(""), Vec::<char>::new());
    assert_eq!(to_chars("a b\n"), vec!['a', ' ', 'b', '\n']);
    assert_eq!(to_chars("é√"), vec!['é', '√']);
}

#[test]
fn whitespace_follows_unicode() {
    for c in [' ', '\t', '\n', '\u{b}', '\u{c}', '\r', '\u{85}', '\u{a0}', '\u{1680}', '\u{2000}',
        '\u{200a}', '\u{2028}', '\u{2029}', '\u{202f}', '\u{205f}', '\u{3000}']
    {
        assert!(is_whitespace(c));
        assert!(c.is_whitespace());
    }
    for c in ['a', '0', '"', '\u{8}', '\u{e}', '\u{200b}', '\u{feff}', '\u{1f}'] {
        assert!(!is_whitespace(c));
        assert!(!c.is_whitespace());
    }
}

#[test]
fn whitespace_agrees_with_the_standard_library_on_every_character() {
    for code in 0u32..0x11_0000 {
        if let Some(c) = char::from_u32(code) {
            assert_eq!(is_whitespace(c), c.is_whitespace());
        }
    }
}

#[test]
fn separators_are_space_and_newline() {
    assert!(is_separator(' '));
    assert!(is_separator('\n'));
    assert!(!is_separator('\t'));
    assert!(!is_separator('\r'));
    assert!(!is_separator('x'));
}

#[test]
fn texts_compare_by_their_characters() {
    assert!(text_eq(&chars_of(""), &chars_of("")));
    assert!(text_eq(&chars_of("abc"), &chars_of("abc")));
    assert!(!text_eq(&chars_of("abc"), &chars_of("abd")));
    assert!(!text_eq(&chars_of("abc"), &chars_of("ab")));
    assert!(!text_eq(&chars_of("ab"), &chars_of("abc")));
}

#[test]
fn words_are_recognised_exactly() {
    assert!(is_word(&chars_of("MAKE"), "MAKE"));
    assert!(!is_word(&chars_of("MAKE"), "MAKES"));
    assert!(!is_word(&chars_of("MAKES"), "MAKE"));
    assert!(!is_word(&chars_of("make"), "MAKE"));
    assert!(is_word(&chars_of(""), ""));
    assert!(!is_word(&chars_of(""), "x"));
    assert!(!is_word(&chars_of("x"), ""));
}

#[test]
fn slices_and_copies() {
    let text = chars_of("FORWARD");
    assert_eq!(slice(&text, 0, 3), chars_of("FOR"));
    assert_eq!(slice(&text, 3, 7), chars_of("WARD"));
    assert_eq!(slice(&text, 7, 7), chars_of(""));
    assert_eq!(copy(&text), text);
    let list = vec![chars_of("a"), chars_of(""), chars_of("bc")];
    assert_eq!(copy_all(&list), list);
    assert_eq!(reverse(&list), vec![chars_of("bc"), chars_of(""), chars_of("a")]);
    assert_eq!(reverse(&Vec::new()), Vec::<Vec<char>>::new());
}

#[test]
fn splitting_at_whitespace() {
    assert_eq!(strings(&split_whitespace(&chars_of(""))), Vec::<String>::new());
    assert_eq!(strings(&split_whitespace(&chars_of(" \n\t "))), Vec::<String>::new());
    assert_eq!(strings(&split_whitespace(&chars_of("a"))), vec!["a"]);
    assert_eq!(
        strings(&split_whitespace(&chars_of("  + \"3\t:x\n\nEQ  "))),
        vec!["+", "\"3", ":x", "EQ"]
    );
    for sample in ["a b", " a  b ", "\u{a0}x\u{2003}y\u{3000}", "one\r\ntwo"] {
        let expected: Vec<String> = sample.split_whitespace().map(|w| w.to_string()).collect();
        assert_eq!(strings(&split_whitespace(&chars_of(sample))), expected);
    }
}

#[test]
fn integers_are_read_as_the_standard_library_reads_them() {
    for sample in [
        "0", "7", "-7", "+7", "007", "-0", "+0", "2147483647", "-2147483648", "2147483648",
        "-2147483649", "99999999999999999999", "", "-", "+", "--1", "+-1", "1-", "1 ", " 1", "1.5",
        "0x10", "1e3", "１", "TRUE", "00000000000000000000000012", "-00002147483648",
    ] {
        assert_eq!(parse_i32(&chars_of(sample)), sample.parse::<i32>().ok(), "{:?}", sample);
    }
    assert_eq!(parse_i32(&chars_of("-12")), Some(-12));
    assert_eq!(parse_i32(&chars_of("2147483648")), None);
}

#[test]
fn integers_are_written_in_decimal() {
    assert_eq!(i32_text(0), chars_of("0"));
    assert_eq!(i32_text(8), chars_of("8"));
    assert_eq!(i32_text(10), chars_of("10"));
    assert_eq!(i32_text(-10), chars_of("-10"));
    assert_eq!(i32_text(i32::MAX), chars_of("2147483647"));
    assert_eq!(i32_text(i32::MIN), chars_of("-2147483648"));
    for v in [1, 9, 11, 99, 100, 101, -1, -99, 123456789, -987654321] {
        assert_eq!(i32_text(v), chars_of(&v.to_string()));
        assert_eq!(parse_i32(&i32_text(v)), Some(v));
    }
}
