use lexer::characters::{
    is_alphabetic_char, is_ascii_digit, is_whitespace_char, matches_text, to_chars, to_text,
};
use lexer::comment::{remove_multi_line_comment, remove_single_line_comment};
use lexer::iterator::Cursor;
use lexer::text::{extend, slice, to_decimal, trim};

#[test]
fn trim_removes_whitespace_at_both_ends() {
    assert_eq!(to_text(&trim(&to_chars("  a b \t\n"))), "a b");
    assert_eq!(to_text(&trim(&to_chars("a"))), "a");
    assert_eq!(to_text(&trim(&to_chars(" \u{a0}\u{3000} "))), "");
    assert_eq!(to_text(&trim(&to_chars(""))), "");
    assert_eq!(to_text(&trim(&to_chars("\u{2003}x\u{2003}"))), "x");
}

#[test]
fn decimal_digits() {
    assert_eq!(to_text(&to_decimal(0)), "0");
    assert_eq!(to_text(&to_decimal(7)), "7");
    assert_eq!(to_text(&to_decimal(10)), "10");
    assert_eq!(to_text(&to_decimal(1234567890)), "1234567890");
    assert_eq!(to_text(&to_decimal(usize::MAX)), usize::MAX.to_string());
}

#[test]
fn buffers() {
    assert_eq!(to_chars("héllo"), vec!['h', 'é', 'l', 'l', 'o']);
    assert_eq!(to_text(&vec!['h', 'é']), "hé");
    assert!(matches_text(&vec!['a', 'b'], "ab"));
    assert!(!matches_text(&vec!['a', 'b'], "abc"));
    assert!(!matches_text(&vec!['a', 'b', 'c'], "ab"));
    assert!(!matches_text(&vec!['a', 'b'], "ac"));
    assert!(matches_text(&vec![], ""));
    assert_eq!(slice(&to_chars("abcdef"), 2, 4), vec!['c', 'd']);
    let mut buffer = vec!['a'];
    extend(&mut buffer, &vec!['b', 'c']);
    assert_eq!(buffer, vec!['a', 'b', 'c']);
    assert!(is_ascii_digit('0') && is_ascii_digit('9') && !is_ascii_digit('a') && !is_ascii_digit('٣'));
}

#[test]
fn single_line_comment_takes_the_line_feed_along() {
    let mut cursor = Cursor::new(" a b\nc\nd");
    assert_eq!(remove_single_line_comment(&mut cursor), vec![' ', 'a', ' ', 'b']);
    assert_eq!(cursor.peek(), Some('c'));
    assert_eq!(cursor.offset(), 5);
    let mut cursor = Cursor::new("x");
    assert_eq!(remove_single_line_comment(&mut cursor), vec!['x']);
    assert!(cursor.at_end());
    let mut cursor = Cursor::new("\n\ny");
    assert_eq!(remove_single_line_comment(&mut cursor), vec![]);
    assert_eq!(cursor.peek(), Some('\n'));
    assert_eq!(cursor.offset(), 1);
    let mut cursor = Cursor::new("");
    assert_eq!(remove_single_line_comment(&mut cursor), vec![]);
    assert!(cursor.at_end());
}

#[test]
fn multi_line_comment_stops_behind_its_close() {
    let mut cursor = Cursor::new("a\n*b*/c");
    assert_eq!(remove_multi_line_comment(&mut cursor), Some(vec!['a', '\n', '*', 'b']));
    assert_eq!(cursor.peek(), Some('c'));
    let mut cursor = Cursor::new("/ a *");
    assert_eq!(remove_multi_line_comment(&mut cursor), None);
    assert!(cursor.at_end());
    let mut cursor = Cursor::new("**/");
    assert_eq!(remove_multi_line_comment(&mut cursor), Some(vec!['*']));
    assert!(cursor.at_end());
}

#[test]
fn character_classes() {
    for c in ['\t', '\n', '\u{b}', '\u{c}', '\r', ' ', '\u{85}', '\u{a0}', '\u{2028}', '\u{3000}'] {
        assert!(is_whitespace_char(c));
    }
    for c in ['\0', '\u{8}', '\u{e}', '\u{1f}', '!', 'a', '_', '\u{7f}', '\u{200b}', 'é'] {
        assert!(!is_whitespace_char(c));
    }
    for c in ['a', 'z', 'A', 'Z', 'm', 'é', 'ß', '京', 'λ', 'ª'] {
        assert!(is_alphabetic_char(c));
    }
    for c in ['0', '9', '_', '@', '[', '`', '{', ' ', '\u{7f}', '٣', '💝', '¡'] {
        assert!(!is_alphabetic_char(c));
    }
    for code in 0..=0x7f_u32 {
        let c = char::from_u32(code).unwrap();
        assert_eq!(is_whitespace_char(c), c.is_whitespace());
        assert_eq!(is_alphabetic_char(c), c.is_alphabetic());
    }
}
