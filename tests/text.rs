use zeroclaw::classifier::TaskClassifier;
use zeroclaw::text::{count_words, is_white_space, starts_with, str_eq};

#[test]
fn words_split_on_any_unicode_whitespace() {
    assert_eq!(count_words(""), 0);
    assert_eq!(count_words("  one\ttwo\nthree  "), 3);
    assert_eq!(count_words("a\u{3000}b\u{A0}c\u{2003}d"), 4);
    assert_eq!(count_words("no-break-here"), 1);
}

#[test]
fn white_space_set() {
    for c in [' ', '\t', '\n', '\r', '\u{B}', '\u{C}', '\u{85}', '\u{A0}', '\u{1680}', '\u{2000}',
        '\u{200A}', '\u{2028}', '\u{2029}', '\u{202F}', '\u{205F}', '\u{3000}']
    {
        assert!(is_white_space(c), "{:?}", c);
        assert!(c.is_whitespace());
    }
    for c in ['a', '-', '\u{200B}', '\u{FEFF}', '\u{180E}'] {
        assert!(!is_white_space(c), "{:?}", c);
        assert_eq!(c.is_whitespace(), is_white_space(c));
    }
}

#[test]
fn tab_separated_words_scale_the_estimate() {
    let words = vec!["word"; 30].join("\t");
    assert_eq!(TaskClassifier::estimate_hours(&words), 1500);
}

#[test]
fn string_equality_and_prefixes() {
    assert!(str_eq("gpt-4o", "gpt-4o"));
    assert!(!str_eq("gpt-4o", "gpt-4"));
    assert!(!str_eq("abc", "abd"));
    assert!(str_eq("", ""));
    assert!(starts_with("gpt-4o-mini", "gpt-4o"));
    assert!(starts_with("gpt-4o", ""));
    assert!(!starts_with("gpt-4", "gpt-4o"));
    assert!(!starts_with("gpt-4o", "gpx"));
    assert!(starts_with("\u{3000}é", "\u{3000}"));
}
