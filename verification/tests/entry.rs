use desktopentries::entry::{Entry, ParseEntryError};

fn parse(contents: &str) -> Entry {
    Entry::new(&String::from(contents)).unwrap()
}

fn value<'a>(entry: &'a Entry, key: &str) -> Option<&'a str> {
    entry.get(key).map(|text| text.as_str())
}

#[test]
fn test_simple_file() {
    let contents = String::from(
        "[Desktop Entry]
Name=My testing entry
Comment=Just a comment with another = for testing
GenericName=Test
Exec=/usr/bin/foo

Icon = bar
Type=Application
# Just a comment passing by
StartupNotify=false
Categories=Utility;Development;
MimeType=text/plain;

Actions=new-action;

# And another one
Keywords=test;

[Desktop Action test]
Name=New Empty Window
Exec=/usr/bin/foo -bar",
    );

    let entry = Entry::new(&contents).unwrap();
    let entries = entry.get_entries();

    assert_eq!(entries.get("Name"), Some(&String::from("My testing entry")));
    assert_eq!(entries.get("Icon"), Some(&String::from("bar")));
    assert_eq!(
        entries.get("Comment"),
        Some(&String::from("Just a comment with another = for testing"))
    );
    assert_eq!(entries.get("Keywords"), Some(&String::from("test;")));
}

#[test]
fn test_invalid_file() {
    let contents = String::from(
        "[Desktop Entry]
I am just an invalid entry",
    );

    let entry = Entry::new(&contents);

    assert!(entry
        .err()
        .unwrap()
        .message
        .contains("Could not extract value from line"));
}

#[test]
fn simple_file_holds_every_field_of_the_first_group() {
    let entry = parse(
        "[Desktop Entry]\nName=My testing entry\nExec=/usr/bin/foo\n\nIcon = bar\n# note\n\
         Keywords=test;\n\n[Desktop Action test]\nName=New Empty Window\nExec=/usr/bin/foo -bar",
    );
    assert_eq!(entry.get_entries().len(), 4);
    assert_eq!(value(&entry, "Name"), Some("My testing entry"));
    assert_eq!(value(&entry, "Exec"), Some("/usr/bin/foo"));
    assert_eq!(value(&entry, "Icon"), Some("bar"));
    assert_eq!(value(&entry, "Keywords"), Some("test;"));
    assert_eq!(value(&entry, "Type"), None);
}

#[test]
fn malformed_line_message_names_position_and_line() {
    let error = Entry::new(&String::from("[Desktop Entry]\nI am just an invalid entry"))
        .err()
        .unwrap();
    assert_eq!(
        error.message,
        "Could not extract value from line 1: I am just an invalid entry"
    );
}

#[test]
fn malformed_line_position_counts_every_line() {
    let mut contents = String::from("[Desktop Entry]\n");
    for _ in 0..11 {
        contents.push_str("# comment\n\n");
    }
    contents.push_str("A=b\nbroken\nC=d\n");
    let error = Entry::new(&contents).err().unwrap();
    assert_eq!(error.message, "Could not extract value from line 24: broken");
}

#[test]
fn malformed_first_line_has_position_zero() {
    let error = Entry::new(&String::from("nothing here")).err().unwrap();
    assert_eq!(error.message, "Could not extract value from line 0: nothing here");
}

#[test]
fn malformed_line_keeps_its_own_whitespace() {
    let error = Entry::new(&String::from("A=1\n  broken \t\nB=2")).err().unwrap();
    assert_eq!(error.message, "Could not extract value from line 1:   broken \t");
}

#[test]
fn parse_entry_error_new_keeps_the_message() {
    let error = ParseEntryError::new(String::from("some message"));
    assert_eq!(error.message, "some message");
}

#[test]
fn empty_text_is_an_empty_entry() {
    let entry = parse("");
    assert!(entry.get_entries().is_empty());
    assert_eq!(value(&entry, "Name"), None);
}

#[test]
fn header_alone_is_an_empty_entry() {
    assert!(parse("[Desktop Entry]").get_entries().is_empty());
    assert!(parse("[Desktop Entry]\n").get_entries().is_empty());
}

#[test]
fn other_group_header_ends_the_entry() {
    let entry = parse("A=1\n[Other]\nB=2\nthis line is never read");
    assert_eq!(value(&entry, "A"), Some("1"));
    assert_eq!(value(&entry, "B"), None);
    assert_eq!(entry.get_entries().len(), 1);
}

#[test]
fn other_group_header_before_a_malformed_line_hides_it() {
    assert!(Entry::new(&String::from("A=1\n[Other]\nbroken")).is_ok());
    assert!(Entry::new(&String::from("A=1\nbroken\n[Other]")).is_err());
}

#[test]
fn repeated_entry_header_is_passed_over() {
    let entry = parse("[Desktop Entry]\nA=1\n[Desktop Entry]\nB=2");
    assert_eq!(value(&entry, "A"), Some("1"));
    assert_eq!(value(&entry, "B"), Some("2"));
}

#[test]
fn entry_header_must_be_exact() {
    let entry = parse("A=1\n[Desktop Entry] \nB=2");
    assert_eq!(value(&entry, "A"), Some("1"));
    assert_eq!(value(&entry, "B"), None);
    let error = Entry::new(&String::from("A=1\n [Desktop Entry]\nB=2")).err().unwrap();
    assert_eq!(error.message, "Could not extract value from line 1:  [Desktop Entry]");
}

#[test]
fn indented_bracket_line_is_a_field_or_malformed() {
    assert!(Entry::new(&String::from(" [group]")).is_err());
    let entry = parse(" [a]=b");
    assert_eq!(value(&entry, "[a]"), Some("b"));
}

#[test]
fn comment_must_start_the_line() {
    let entry = parse("#A=1\n #B=2\nC=3 # not a comment");
    assert_eq!(value(&entry, "#A"), None);
    assert_eq!(value(&entry, "#B"), Some("2"));
    assert_eq!(value(&entry, "C"), Some("3 # not a comment"));
}

#[test]
fn blank_lines_of_any_whitespace_are_passed_over() {
    let entry = parse("A=1\n \t \n\u{a0}\u{2003}\u{3000}\n\nB=2");
    assert_eq!(entry.get_entries().len(), 2);
    assert_eq!(value(&entry, "B"), Some("2"));
}

#[test]
fn keys_and_values_are_trimmed() {
    let entry = parse("  Name \t=  spaced value \u{2009}\nEmpty=\n= no key\nKey==x=");
    assert_eq!(value(&entry, "Name"), Some("spaced value"));
    assert_eq!(value(&entry, "Empty"), Some(""));
    assert_eq!(value(&entry, ""), Some("no key"));
    assert_eq!(value(&entry, "Key"), Some("=x="));
}

#[test]
fn inner_whitespace_is_kept() {
    let entry = parse("Two words = three  little\twords ");
    assert_eq!(value(&entry, "Two words"), Some("three  little\twords"));
}

#[test]
fn later_value_replaces_earlier() {
    let entry = parse("A=1\nB=2\nA=3");
    assert_eq!(value(&entry, "A"), Some("3"));
    assert_eq!(entry.get_entries().len(), 2);
}

#[test]
fn carriage_return_before_line_feed_ends_the_line() {
    let entry = parse("[Desktop Entry]\r\nA=1\r\nB=2\r\n");
    assert_eq!(value(&entry, "A"), Some("1"));
    assert_eq!(value(&entry, "B"), Some("2"));
    assert_eq!(entry.get_entries().len(), 2);
}

#[test]
fn lone_carriage_return_stays_in_the_line() {
    let error = Entry::new(&String::from("A=1\nbro\rken\nB=2")).err().unwrap();
    assert_eq!(error.message, "Could not extract value from line 1: bro\rken");
    let error = Entry::new(&String::from("A=1\nbroken\r")).err().unwrap();
    assert_eq!(error.message, "Could not extract value from line 1: broken\r");
    let error = Entry::new(&String::from("A=1\nbroken\r\n")).err().unwrap();
    assert_eq!(error.message, "Could not extract value from line 1: broken");
}

#[test]
fn last_line_without_ending_header_followed_by_carriage_return() {
    let entry = parse("A=1\n[Desktop Entry]\r");
    assert_eq!(value(&entry, "A"), Some("1"));
    let entry = parse("A=1\n[Desktop Entry]\r\nB=2");
    assert_eq!(value(&entry, "B"), Some("2"));
}

#[test]
fn text_outside_ascii_is_read_by_characters() {
    let entry = parse("Name[de]=Gr\u{fc}\u{df}e\nName[ja]=\u{65e5}\u{672c}\u{8a9e} = \u{1f600}\nbad\u{e9}=\u{e8}");
    assert_eq!(value(&entry, "Name[de]"), Some("Gr\u{fc}\u{df}e"));
    assert_eq!(value(&entry, "Name[ja]"), Some("\u{65e5}\u{672c}\u{8a9e} = \u{1f600}"));
    assert_eq!(value(&entry, "bad\u{e9}"), Some("\u{e8}"));
}

fn read_with_standard_functions(
    contents: &str,
) -> Result<std::collections::HashMap<String, String>, String> {
    let mut fields = std::collections::HashMap::new();
    for (index, line) in contents.lines().enumerate() {
        if line == "[Desktop Entry]" || line.starts_with('#') || line.trim() == "" {
            continue;
        } else if line.starts_with('[') {
            break;
        }
        let pair: Vec<&str> = line.splitn(2, '=').collect();
        if pair.len() < 2 {
            return Err(format!("Could not extract value from line {}: {}", index, line));
        }
        fields.insert(String::from(pair[0].trim()), String::from(pair[1].trim()));
    }
    Ok(fields)
}

#[test]
fn reading_agrees_with_the_standard_line_and_trim_functions() {
    let samples = [
        "",
        "\n",
        "\r\n",
        "\r",
        "A=1\r\n\r\nB = 2 \r\n",
        "\n\n\nA=\t1\n",
        "A=1\r\r\nB=2",
        "A=1\rB=2\nC=3\r",
        "a\r\nb\rc\n\rd\r\n\r\n",
        "\r\r\n\n\rx=1",
        "one\ntwo\r",
        "\u{85}A\u{85}=\u{2028}1\u{2029}\n\u{1680}B=\u{202f}2\u{205f}",
        "x\u{85}y\u{2028}z=\u{e9}\n\u{e9}",
        "k=v\n\r\n#c\r\n[x]\r\nz=1",
        "\u{feff}A=1",
        "A=\u{200b}1\u{200b}",
        " \t\u{a0}=\u{3000} \n \u{2000}\u{200a}k\u{2009}v =\u{b}\u{c}",
        "[Desktop Entry]\r\n[Desktop Entry]\n [x]=1\n#\n=\n==\n[",
        "\u{1f600}=\u{1f600}\n\u{1f600}",
    ];
    for sample in samples {
        agrees_with_standard_functions(sample);
    }
}

fn agrees_with_standard_functions(sample: &str) {
    let found = Entry::new(&String::from(sample));
    match read_with_standard_functions(sample) {
        Ok(expected) => {
            let entry = found.unwrap();
            assert_eq!(entry.get_entries().len(), expected.len(), "{:?}", sample);
            for (key, text) in expected {
                assert_eq!(entry.get(&key), Some(&text), "{:?}", sample);
            }
        }
        Err(message) => {
            assert_eq!(found.err().unwrap().message, message, "{:?}", sample);
        }
    }
}

#[test]
fn reading_agrees_with_the_standard_functions_on_many_texts() {
    let alphabet = [
        'a', 'b', '=', '=', ' ', '\t', '\n', '\n', '\r', '[', ']', '#', ';', '\u{a0}', '\u{e9}',
        '\u{2003}', '\u{1f600}',
    ];
    let mut state: u64 = 0x2545_f491_4f6c_dd1d;
    let mut next = move |bound: usize| {
        state = state.wrapping_mul(6364136223846793005).wrapping_add(1442695040888963407);
        ((state >> 33) as usize) % bound
    };
    for _ in 0..3000 {
        let length = next(24);
        let mut sample = String::new();
        for _ in 0..length {
            if next(9) == 0 {
                sample.push_str("[Desktop Entry]");
            } else {
                sample.push(alphabet[next(alphabet.len())]);
            }
        }
        agrees_with_standard_functions(&sample);
    }
}

#[test]
fn from_entries_sets_fields_in_order() {
    let entry = Entry::from_entries(vec![
        (String::from("Type"), String::from("Application")),
        (String::from("Name"), String::from("first")),
        (String::from("Name"), String::from("second")),
    ]);
    assert_eq!(value(&entry, "Type"), Some("Application"));
    assert_eq!(value(&entry, "Name"), Some("second"));
    assert_eq!(entry.get_entries().len(), 2);
    assert_eq!(value(&entry, "Missing"), None);
}

#[test]
fn from_entries_of_nothing_is_empty() {
    let entry = Entry::from_entries(Vec::new());
    assert!(entry.get_entries().is_empty());
}

#[test]
fn get_and_get_entries_agree() {
    let entry = parse("A=1\nB=2");
    for key in ["A", "B", "C", ""] {
        assert_eq!(entry.get(key), entry.get_entries().get(key));
    }
}
