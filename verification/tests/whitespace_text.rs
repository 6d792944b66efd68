use thoughts_desktop::text::{chars_of, same_text};
use thoughts_desktop::whitespace::{is_space, trim_bounds};

fn trimmed(text: &str) -> String {
    let chars = chars_of(text);
    let (start, end) = trim_bounds(&chars);
    chars[start..end].iter().collect()
}

#[test]
fn white_space_is_what_unicode_says_it_is() {
    let spaces = [
        '\u{9}', '\u{A}', '\u{B}', '\u{C}', '\u{D}', ' ', '\u{85}', '\u{A0}', '\u{1680}',
        '\u{2000}', '\u{2001}', '\u{2005}', '\u{200A}', '\u{2028}', '\u{2029}', '\u{202F}',
        '\u{205F}', '\u{3000}',
    ];
    for c in spaces {
        assert!(is_space(c), "{:?}", c);
    }
    let others = [
        '\u{8}', '\u{E}', '\u{1F}', '!', '0', 'a', '\u{84}', '\u{86}', '\u{9F}', '\u{A1}',
        '\u{167F}', '\u{1681}', '\u{1FFF}', '\u{200B}', '\u{2027}', '\u{202A}', '\u{202E}',
        '\u{2030}', '\u{205E}', '\u{2060}', '\u{2FFF}', '\u{3001}', '\u{FEFF}',
    ];
    for c in others {
        assert!(!is_space(c), "{:?}", c);
    }
}

#[test]
fn is_space_agrees_with_the_standard_library_everywhere() {
    for u in 0..=0x10FFFFu32 {
        if let Some(c) = char::from_u32(u) {
            assert_eq!(is_space(c), c.is_whitespace(), "{:?}", c);
        }
    }
}

#[test]
fn trim_strips_both_ends_and_nothing_between() {
    assert_eq!(trimmed("  12 34\t\n"), "12 34");
    assert_eq!(trimmed("5555"), "5555");
    assert_eq!(trimmed("\u{3000}5555\u{A0}"), "5555");
}

#[test]
fn trim_of_white_space_alone_is_empty() {
    assert_eq!(trimmed(""), "");
    assert_eq!(trimmed(" \t\r\n"), "");
    let chars = chars_of("   ");
    let (start, end) = trim_bounds(&chars);
    assert!(start <= end && end <= chars.len());
    assert_eq!(start, end);
}

#[test]
fn trim_agrees_with_the_standard_library() {
    for text in ["", " ", "a", " a", "a ", " a b ", "\n\n42\n", "\u{2003}x\u{2003}y\u{2003}", "é "] {
        assert_eq!(trimmed(text), text.trim());
    }
}

#[test]
fn chars_of_gives_every_character_in_order() {
    assert_eq!(chars_of("a⌥é"), vec!['a', '⌥', 'é']);
    assert_eq!(chars_of(""), Vec::<char>::new());
}

#[test]
fn same_text_compares_character_by_character() {
    assert!(same_text("open", "open"));
    assert!(same_text("", ""));
    assert!(!same_text("open", "opem"));
    assert!(!same_text("open", "opening"));
    assert!(!same_text("opening", "open"));
    assert!(!same_text("", "x"));
}
