use oracle::text::{char_count, char_prefix, decimal, is_blank_text};

#[test]
fn blank_texts_are_empty_or_white_space() {
    assert!(is_blank_text(""));
    assert!(is_blank_text(" \t\r\n"));
    assert!(is_blank_text("\u{2003}\u{a0}"));
    assert!(!is_blank_text(" x "));
    assert!(!is_blank_text("\u{200b}"));
}

#[test]
fn decimal_writes_numbers_without_leading_zeros() {
    assert_eq!(decimal(0), "0");
    assert_eq!(decimal(7), "7");
    assert_eq!(decimal(10), "10");
    assert_eq!(decimal(2049), "2049");
    assert_eq!(decimal(1_000_000), "1000000");
    assert_eq!(decimal(usize::MAX), usize::MAX.to_string());
}

#[test]
fn lengths_and_prefixes_count_characters() {
    assert_eq!(char_count(""), 0);
    assert_eq!(char_count("héllo"), 5);
    assert_eq!(char_count("日本語"), 3);
    assert_eq!(char_prefix("日本語", 2), "日本");
    assert_eq!(char_prefix("héllo", 2), "hé");
    assert_eq!(char_prefix("abc", 0), "");
    assert_eq!(char_prefix("abc", 3), "abc");
}

#[test]
fn white_space_is_the_unicode_property() {
    let spaces = [
        '\u{9}', '\u{a}', '\u{b}', '\u{c}', '\u{d}', ' ', '\u{85}', '\u{a0}', '\u{1680}',
        '\u{2000}', '\u{2005}', '\u{200a}', '\u{2028}', '\u{2029}', '\u{202f}', '\u{205f}',
        '\u{3000}',
    ];
    for c in spaces {
        assert!(is_blank_text(&c.to_string()), "{c:?} is white space");
    }
    let others = ['\u{8}', '\u{e}', '\u{1f}', '\u{180e}', '\u{200b}', '\u{2060}', '\u{feff}', '_'];
    for c in others {
        assert!(!is_blank_text(&c.to_string()), "{c:?} is no white space");
    }
}
