use desktopentries::locale::{
    create_localized_keys, language_strings_from, prepare_language_strings, FULL_PATTERN,
    LANGUAGE_PATTERN, MODIFIER_PATTERN, TERRITORY_PATTERN,
};
use regex::Regex;

fn suffixes(locale: &str) -> Vec<String> {
    prepare_language_strings(String::from(locale))
}

fn groups(texts: &[Option<&str>]) -> Option<Vec<Option<String>>> {
    Some(texts.iter().map(|text| text.map(String::from)).collect())
}

#[test]
fn full_locale_gives_four_suffixes() {
    assert_eq!(
        suffixes("en_GB.ASCII@Latn"),
        vec!["[en_GB@Latn]", "[en_GB]", "[en@Latn]", "[en]"]
    );
}

#[test]
fn candidate_order_for_name() {
    let keys = create_localized_keys("Name", &suffixes("en_GB.ASCII@Latn"));
    assert_eq!(
        keys,
        vec!["Name[en_GB@Latn]", "Name[en_GB]", "Name[en@Latn]", "Name[en]", "Name"]
    );
}

#[test]
fn locale_without_encoding() {
    assert_eq!(suffixes("sr_RS@latin"), vec!["[sr_RS@latin]", "[sr_RS]", "[sr@latin]", "[sr]"]);
}

#[test]
fn locale_with_territory_only() {
    assert_eq!(suffixes("en_GB"), vec!["[en_GB]", "[en]"]);
    assert_eq!(suffixes("en_GB.UTF-8"), vec!["[en_GB]", "[en]"]);
}

#[test]
fn locale_with_modifier_only() {
    assert_eq!(suffixes("en@Latn"), vec!["[en@Latn]", "[en]"]);
    assert_eq!(suffixes("ca.UTF-8@valencia"), vec!["[ca@valencia]", "[ca]"]);
}

#[test]
fn locale_with_encoding_only() {
    assert_eq!(suffixes("en.UTF-8"), vec!["[en]"]);
    assert_eq!(suffixes("ja.eucJP"), vec!["[ja]"]);
}

#[test]
fn encoding_is_in_no_suffix() {
    for locale in [
        "en.UTF-8",
        "en_GB.UTF-8",
        "en.UTF-8@Latn",
        "en_GB.UTF-8@Latn",
        "en_GB.UTF_8@Latn",
        "en.UTF_8",
    ] {
        for suffix in suffixes(locale) {
            assert!(!suffix.contains("UTF"), "{:?} in {:?}", suffix, locale);
            assert!(!suffix.contains('.'), "{:?} in {:?}", suffix, locale);
        }
    }
    assert_eq!(
        suffixes("en_GB.UTF_8@Latn"),
        vec!["[en_GB@Latn]", "[en_GB]", "[en@Latn]", "[en]"]
    );
    assert_eq!(suffixes("en.UTF_8"), vec!["[en]"]);
}

#[test]
fn locale_without_a_language_has_no_suffix() {
    for locale in
        ["_GB", "_GB.UTF-8", "_GB@Latn", ".UTF-8", "@Latn", ".UTF-8@Latn", "_GB.UTF-8@Latn"]
    {
        assert_eq!(suffixes(locale), Vec::<String>::new(), "{:?}", locale);
    }
}

#[test]
fn empty_parts_are_not_taken() {
    assert_eq!(suffixes("en_"), vec!["[en]"]);
    assert_eq!(suffixes("en@"), vec!["[en]"]);
    assert_eq!(suffixes("en."), vec!["[en]"]);
    assert_eq!(suffixes("en_@Latn"), vec!["[en@Latn]", "[en]"]);
    assert_eq!(suffixes("en_GB@"), vec!["[en_GB]", "[en]"]);
    assert_eq!(suffixes("en_GB.@Latn"), vec!["[en_GB@Latn]", "[en_GB]", "[en@Latn]", "[en]"]);
}

#[test]
fn parts_end_at_the_first_separator() {
    assert_eq!(suffixes("en@Latn@x_y.z"), vec!["[en@Latn@x_y.z]", "[en]"]);
    assert_eq!(suffixes("en_GB_x"), vec!["[en_GB_x]", "[en]"]);
    assert_eq!(suffixes("en_GB.a.b@m"), vec!["[en_GB@m]", "[en_GB]", "[en@m]", "[en]"]);
    assert_eq!(
        suffixes("en\n_GB\n.e\n@m\n"),
        vec!["[en\n_GB\n@m\n]", "[en\n_GB\n]", "[en\n@m\n]", "[en\n]"]
    );
}

#[test]
fn suffixes_of_every_shape_of_locale() {
    let languages = ["en", "C", "sr", "x-klingon", "\u{65e5}\u{672c}", "a b"];
    let territories = ["GB", "001", "\u{e9}", "U S"];
    let encodings = ["UTF-8", "ISO-8859-1", "e", " "];
    let modifiers = ["Latn", "euro", "\u{1f600}", "m o"];
    let mut count = 0;
    for l in languages {
        for t in territories {
            for e in encodings {
                for m in modifiers {
                    for shape in 0..8 {
                        let with_t = shape & 1 != 0;
                        let with_e = shape & 2 != 0;
                        let with_m = shape & 4 != 0;
                        let mut locale = String::from(l);
                        if with_t {
                            locale.push('_');
                            locale.push_str(t);
                        }
                        if with_e {
                            locale.push('.');
                            locale.push_str(e);
                        }
                        if with_m {
                            locale.push('@');
                            locale.push_str(m);
                        }
                        let mut expected = Vec::new();
                        if with_t && with_m {
                            expected.push(format!("[{}_{}@{}]", l, t, m));
                        }
                        if with_t {
                            expected.push(format!("[{}_{}]", l, t));
                        }
                        if with_m {
                            expected.push(format!("[{}@{}]", l, m));
                        }
                        expected.push(format!("[{}]", l));
                        assert_eq!(suffixes(&locale), expected, "{:?}", locale);
                        count += 1;
                    }
                }
            }
        }
    }
    assert_eq!(count, 3072);
}

#[test]
fn bare_language() {
    assert_eq!(suffixes("de"), vec!["[de]"]);
    assert_eq!(suffixes("C"), vec!["[C]"]);
}

#[test]
fn empty_locale_has_no_suffix() {
    assert_eq!(suffixes(""), Vec::<String>::new());
    assert_eq!(create_localized_keys("Name", &suffixes("")), vec!["Name"]);
}

#[test]
fn locale_of_separators_only() {
    assert_eq!(suffixes("_"), Vec::<String>::new());
    assert_eq!(suffixes("@"), Vec::<String>::new());
    assert_eq!(suffixes("_@"), Vec::<String>::new());
}

#[test]
fn keys_without_suffixes_are_the_bare_name() {
    assert_eq!(create_localized_keys("Keywords", &Vec::new()), vec!["Keywords"]);
    assert_eq!(create_localized_keys("", &Vec::new()), vec![""]);
}

#[test]
fn keys_keep_the_order_of_the_suffixes() {
    let given = vec![String::from("[b]"), String::from("[a]"), String::from("[b]")];
    assert_eq!(
        create_localized_keys("Comment", &given),
        vec!["Comment[b]", "Comment[a]", "Comment[b]", "Comment"]
    );
}

#[test]
fn suffixes_from_groups() {
    let full = groups(&[Some("whole"), Some("aa"), Some("BB"), Some("cc")]);
    let pair = groups(&[Some("whole"), Some("dd"), Some("EE")]);
    let single = groups(&[Some("whole"), Some("ff")]);
    assert_eq!(
        language_strings_from(&full, &pair, &pair, &single),
        vec!["[aa_BB@cc]", "[dd_EE]", "[dd@EE]", "[ff]"]
    );
    assert_eq!(
        language_strings_from(&None, &pair, &None, &single),
        vec!["[dd_EE]", "[ff]"]
    );
    assert_eq!(
        language_strings_from(&full, &None, &pair, &None),
        vec!["[aa_BB@cc]", "[dd@EE]"]
    );
    assert_eq!(language_strings_from(&None, &None, &None, &None), Vec::<String>::new());
}

#[test]
fn groups_that_took_no_part_give_no_suffix() {
    let short = groups(&[Some("whole"), Some("aa")]);
    let holed = groups(&[Some("whole"), None, Some("bb"), Some("cc")]);
    let empty = groups(&[]);
    assert_eq!(language_strings_from(&short, &short, &short, &short), vec!["[aa]"]);
    assert_eq!(language_strings_from(&holed, &holed, &holed, &holed), Vec::<String>::new());
    assert_eq!(language_strings_from(&empty, &empty, &empty, &empty), Vec::<String>::new());
}

#[test]
fn groups_may_be_empty_texts() {
    let blank = groups(&[Some(""), Some(""), Some(""), Some("")]);
    assert_eq!(
        language_strings_from(&blank, &blank, &blank, &blank),
        vec!["[_@]", "[_]", "[@]", "[]"]
    );
}

#[test]
fn the_four_patterns_compile() {
    for pattern in [FULL_PATTERN, TERRITORY_PATTERN, MODIFIER_PATTERN, LANGUAGE_PATTERN] {
        assert!(Regex::new(pattern).is_ok());
    }
}

#[test]
fn suffixes_are_the_same_on_every_call() {
    assert_eq!(suffixes("pt_BR.ISO-8859-1@euro"), suffixes("pt_BR.ISO-8859-1@euro"));
    assert_eq!(
        suffixes("pt_BR.ISO-8859-1@euro"),
        vec!["[pt_BR@euro]", "[pt_BR]", "[pt@euro]", "[pt]"]
    );
}
