use desktopentries::text::{char_is_whitespace, decimal_string, same_text, split, to_chars};

#[test]
fn to_chars_lists_every_character() {
    assert_eq!(to_chars(""), Vec::<char>::new());
    assert_eq!(to_chars("a=b"), vec!['a', '=', 'b']);
    assert_eq!(to_chars("\u{e9}\u{65e5}\u{1f600}"), vec!['\u{e9}', '\u{65e5}', '\u{1f600}']);
}

#[test]
fn whitespace_is_what_the_standard_library_counts() {
    let mut count = 0;
    for code in 0..=0x10ffff_u32 {
        if let Some(c) = char::from_u32(code) {
            assert_eq!(char_is_whitespace(c), c.is_whitespace(), "U+{:04X}", code);
            if char_is_whitespace(c) {
                count += 1;
            }
        }
    }
    assert_eq!(count, 25);
}

#[test]
fn whitespace_by_example() {
    for c in [' ', '\t', '\n', '\r', '\u{b}', '\u{c}', '\u{85}', '\u{a0}', '\u{2003}', '\u{3000}'] {
        assert!(char_is_whitespace(c), "{:?}", c);
    }
    for c in ['a', '_', '\0', '\u{8}', '\u{e}', '\u{200b}', '\u{feff}', '\u{180e}', '\u{2060}'] {
        assert!(!char_is_whitespace(c), "{:?}", c);
    }
}

#[test]
fn split_at_semicolons() {
    assert_eq!(split("Audio;Video;", ';'), vec!["Audio", "Video", ""]);
    assert_eq!(split("Audio;Video", ';'), vec!["Audio", "Video"]);
    assert_eq!(split("", ';'), vec![""]);
    assert_eq!(split(";", ';'), vec!["", ""]);
    assert_eq!(split(";;a;", ';'), vec!["", "", "a", ""]);
    assert_eq!(split("no separator", ';'), vec!["no separator"]);
}

#[test]
fn split_agrees_with_the_standard_function() {
    for text in ["", ";", "a", "a;b", "a;;b;", ";a;", "\u{e9};\u{1f600};x", "one;two;three;one;"] {
        let expected: Vec<&str> = text.split(';').collect();
        assert_eq!(split(text, ';'), expected, "{:?}", text);
    }
    let expected: Vec<&str> = "a:b;c:".split(':').collect();
    assert_eq!(split("a:b;c:", ':'), expected);
}

#[test]
fn split_agrees_with_the_standard_function_on_many_texts() {
    let alphabet = ['a', ';', ';', ' ', '\u{e9}', '\u{1f600}', ':'];
    let mut state: u64 = 0x9e37_79b9_7f4a_7c15;
    let mut next = move |bound: usize| {
        state = state.wrapping_mul(6364136223846793005).wrapping_add(1442695040888963407);
        ((state >> 33) as usize) % bound
    };
    for _ in 0..2000 {
        let length = next(12);
        let mut text = String::new();
        for _ in 0..length {
            text.push(alphabet[next(alphabet.len())]);
        }
        let expected: Vec<&str> = text.split(';').collect();
        assert_eq!(split(&text, ';'), expected, "{:?}", text);
    }
}

#[test]
fn decimal_string_agrees_with_the_standard_function() {
    let mut n: usize = 0;
    while n < 100_000 {
        assert_eq!(decimal_string(n), n.to_string());
        n += 37;
    }
    for shift in 0..usize::BITS {
        let n = 1_usize << shift;
        assert_eq!(decimal_string(n), n.to_string());
        assert_eq!(decimal_string(n - 1), (n - 1).to_string());
    }
}

#[test]
fn decimal_string_writes_numbers() {
    assert_eq!(decimal_string(0), "0");
    assert_eq!(decimal_string(7), "7");
    assert_eq!(decimal_string(9), "9");
    assert_eq!(decimal_string(10), "10");
    assert_eq!(decimal_string(24), "24");
    assert_eq!(decimal_string(100), "100");
    assert_eq!(decimal_string(1234567890), "1234567890");
    assert_eq!(decimal_string(usize::MAX), usize::MAX.to_string());
}

#[test]
fn same_text_compares_characters() {
    assert!(same_text("", ""));
    assert!(same_text("true", "true"));
    assert!(!same_text("true", "True"));
    assert!(!same_text("true", "tru"));
    assert!(!same_text("true", "true "));
    assert!(!same_text("", "a"));
    assert!(same_text("\u{e9}\u{1f600}", "\u{e9}\u{1f600}"));
    assert!(!same_text("\u{e9}", "e\u{301}"));
}
