//! Localized field names. A field may be given once for each locale, the
//! locale standing in brackets behind the field's name. For a locale of the
//! form `language[_territory][.encoding][@modifier]` the names to look under
//! are, from the most specific to the least: `[language_territory@modifier]`,
//! `[language_territory]`, `[language@modifier]`, `[language]`, and the bare
//! name. The encoding never takes part. A locale that does not start with a
//! language has no name but the bare one.
//!
//! The language ends at the first `_`, `.` or `@`, the territory at the first
//! `.` or `@` behind it, the encoding at the first `@`; the modifier is all
//! that follows. Four patterns take the parts from the locale, each from the
//! locale as a whole.

use crate::matching::{capture_groups, regex_captures, regex_compiled};
use regex::Regex;
use vstd::prelude::*;
use vstd::string::StringExecFns;

verus! {

/// Takes language, territory and modifier from a locale that has all three,
/// and passes over an encoding between territory and modifier.
pub const FULL_PATTERN: &'static str = r"(?s)^([^_.@]+)_([^.@]+)(?:\.[^@]*)?@(.+)$";

/// Takes language and territory from a locale that has a territory, and
/// passes over what follows the territory.
pub const TERRITORY_PATTERN: &'static str = r"(?s)^([^_.@]+)_([^.@]+)(?:[.@].*)?$";

/// Takes language and modifier from a locale that has a modifier, and passes
/// over territory and encoding between them.
pub const MODIFIER_PATTERN: &'static str = r"(?s)^([^_.@]+)(?:[_.][^@]*)?@(.+)$";

/// Takes the language from a locale, and passes over what follows it.
pub const LANGUAGE_PATTERN: &'static str = r"(?s)^([^_.@]+)(?:[_.@].*)?$";

/// The capture groups of a match, or nothing.
pub type Groups = Option<Seq<Option<Seq<char>>>>;

/// The groups that `pattern` captures in `locale`; nothing where the pattern
/// does not compile or does not match.
pub open spec fn locale_captures(pattern: Seq<char>, locale: Seq<char>) -> Groups {
    match regex_compiled(pattern) {
        Some(expression) => regex_captures(expression, locale),
        None => None,
    }
}

/// The text of group `i`, where there is a match and the group took part.
pub open spec fn group(groups: Groups, i: int) -> Option<Seq<char>> {
    match groups {
        Some(texts) => if 0 <= i < texts.len() {
            texts[i]
        } else {
            None
        },
        None => None,
    }
}

/// `[language_territory@modifier]`, from groups 1 to 3.
pub open spec fn full_suffix(groups: Groups) -> Option<Seq<char>> {
    match (group(groups, 1), group(groups, 2), group(groups, 3)) {
        (Some(language), Some(territory), Some(modifier)) => Some(
            seq!['['] + language + seq!['_'] + territory + seq!['@'] + modifier + seq![']'],
        ),
        _ => None,
    }
}

/// `[language_territory]`, from groups 1 and 2.
pub open spec fn territory_suffix(groups: Groups) -> Option<Seq<char>> {
    match (group(groups, 1), group(groups, 2)) {
        (Some(language), Some(territory)) => Some(
            seq!['['] + language + seq!['_'] + territory + seq![']'],
        ),
        _ => None,
    }
}

/// `[language@modifier]`, from groups 1 and 2.
pub open spec fn modifier_suffix(groups: Groups) -> Option<Seq<char>> {
    match (group(groups, 1), group(groups, 2)) {
        (Some(language), Some(modifier)) => Some(
            seq!['['] + language + seq!['@'] + modifier + seq![']'],
        ),
        _ => None,
    }
}

/// `[language]`, from group 1.
pub open spec fn language_suffix(groups: Groups) -> Option<Seq<char>> {
    match group(groups, 1) {
        Some(language) => Some(seq!['['] + language + seq![']']),
        None => None,
    }
}

/// No suffix, or the one.
pub open spec fn listed(suffix: Option<Seq<char>>) -> Seq<Seq<char>> {
    match suffix {
        Some(text) => seq![text],
        None => seq![],
    }
}

/// The suffixes that the four extractions give, the most specific first. An
/// extraction that found nothing leaves no entry.
pub open spec fn suffixes_from(
    full: Groups,
    territory: Groups,
    modifier: Groups,
    language: Groups,
) -> Seq<Seq<char>> {
    listed(full_suffix(full)) + listed(territory_suffix(territory)) + listed(
        modifier_suffix(modifier),
    ) + listed(language_suffix(language))
}

/// The suffixes for a locale: none for the empty locale, else what the four
/// patterns take from it.
pub open spec fn language_suffixes(locale: Seq<char>) -> Seq<Seq<char>> {
    if locale.len() == 0 {
        seq![]
    } else {
        suffixes_from(
            locale_captures(FULL_PATTERN@, locale),
            locale_captures(TERRITORY_PATTERN@, locale),
            locale_captures(MODIFIER_PATTERN@, locale),
            locale_captures(LANGUAGE_PATTERN@, locale),
        )
    }
}

/// A locale has at most four suffixes.
pub proof fn lemma_at_most_four_suffixes(locale: Seq<char>)
    ensures
        language_suffixes(locale).len() <= 4,
{
}

/// There is one name more than there are suffixes: each suffix gives one, in
/// order, and the bare name always comes last.
pub proof fn lemma_bare_name_is_last(prefix: Seq<char>, suffixes: Seq<Seq<char>>)
    ensures
        localized_keys(prefix, suffixes).len() == suffixes.len() + 1,
        localized_keys(prefix, suffixes).last() == prefix,
        forall|i: int|
            0 <= i < suffixes.len() ==> #[trigger] localized_keys(prefix, suffixes)[i] == prefix
                + suffixes[i],
{
}

/// The names to look under for the field `prefix`: the name with each suffix
/// in order, then the bare name.
pub open spec fn localized_keys(prefix: Seq<char>, suffixes: Seq<Seq<char>>) -> Seq<Seq<char>> {
    Seq::new(suffixes.len(), |i: int| prefix + suffixes[i]).push(prefix)
}

/// Compiles `pattern` and takes the groups that it captures in `locale`.
fn captures_in(pattern: &str, locale: &str) -> (groups: Option<Vec<Option<String>>>)
    ensures
        groups.deep_view() == locale_captures(pattern@, locale@),
{
    match Regex::new(pattern) {
        Ok(expression) => capture_groups(&expression, locale),
        Err(_) => None,
    }
}

/// The text of group `i`, where there is a match and the group took part.
fn group_text(groups: &Option<Vec<Option<String>>>, i: usize) -> (text: Option<&String>)
    ensures
        match text {
            Some(found) => group(groups.deep_view(), i as int) == Some(found@),
            None => group(groups.deep_view(), i as int) is None,
        },
{
    match groups {
        Some(texts) => {
            if i < texts.len() {
                match &texts[i] {
                    Some(found) => Some(found),
                    None => None,
                }
            } else {
                None
            }
        },
        None => None,
    }
}

/// Writes `[language_territory@modifier]` from groups 1 to 3.
fn write_full_suffix(groups: &Option<Vec<Option<String>>>) -> (suffix: Option<String>)
    ensures
        suffix.deep_view() == full_suffix(groups.deep_view()),
{
    match (group_text(groups, 1), group_text(groups, 2), group_text(groups, 3)) {
        (Some(language), Some(territory), Some(modifier)) => {
            proof {
                reveal_strlit("[");
                reveal_strlit("_");
                reveal_strlit("@");
                reveal_strlit("]");
            }
            let mut text = "[".to_owned();
            text.append(language.as_str());
            text.append("_");
            text.append(territory.as_str());
            text.append("@");
            text.append(modifier.as_str());
            text.append("]");
            Some(text)
        },
        _ => None,
    }
}

/// Writes `[language_territory]` from groups 1 and 2.
fn write_territory_suffix(groups: &Option<Vec<Option<String>>>) -> (suffix: Option<String>)
    ensures
        suffix.deep_view() == territory_suffix(groups.deep_view()),
{
    match (group_text(groups, 1), group_text(groups, 2)) {
        (Some(language), Some(territory)) => {
            proof {
                reveal_strlit("[");
                reveal_strlit("_");
                reveal_strlit("]");
            }
            let mut text = "[".to_owned();
            text.append(language.as_str());
            text.append("_");
            text.append(territory.as_str());
            text.append("]");
            Some(text)
        },
        _ => None,
    }
}

/// Writes `[language@modifier]` from groups 1 and 2.
fn write_modifier_suffix(groups: &Option<Vec<Option<String>>>) -> (suffix: Option<String>)
    ensures
        suffix.deep_view() == modifier_suffix(groups.deep_view()),
{
    match (group_text(groups, 1), group_text(groups, 2)) {
        (Some(language), Some(modifier)) => {
            proof {
                reveal_strlit("[");
                reveal_strlit("@");
                reveal_strlit("]");
            }
            let mut text = "[".to_owned();
            text.append(language.as_str());
            text.append("@");
            text.append(modifier.as_str());
            text.append("]");
            Some(text)
        },
        _ => None,
    }
}

/// Writes `[language]` from group 1.
fn write_language_suffix(groups: &Option<Vec<Option<String>>>) -> (suffix: Option<String>)
    ensures
        suffix.deep_view() == language_suffix(groups.deep_view()),
{
    match group_text(groups, 1) {
        Some(language) => {
            proof {
                reveal_strlit("[");
                reveal_strlit("]");
            }
            let mut text = "[".to_owned();
            text.append(language.as_str());
            text.append("]");
            Some(text)
        },
        None => None,
    }
}

/// Puts `suffix` at the end of the list, where there is one.
fn list(language_strings: &mut Vec<String>, suffix: Option<String>)
    ensures
        final(language_strings).deep_view() == old(language_strings).deep_view() + listed(
            suffix.deep_view(),
        ),
{
    if let Some(text) = suffix {
        language_strings.push(text);
    }
}

/// Lists the suffixes that the groups of the four extractions give, the most
/// specific first.
pub fn language_strings_from(
    full: &Option<Vec<Option<String>>>,
    territory: &Option<Vec<Option<String>>>,
    modifier: &Option<Vec<Option<String>>>,
    language: &Option<Vec<Option<String>>>,
) -> (language_strings: Vec<String>)
    ensures
        language_strings.deep_view() == suffixes_from(
            full.deep_view(),
            territory.deep_view(),
            modifier.deep_view(),
            language.deep_view(),
        ),
{
    let mut language_strings: Vec<String> = Vec::new();
    list(&mut language_strings, write_full_suffix(full));
    list(&mut language_strings, write_territory_suffix(territory));
    list(&mut language_strings, write_modifier_suffix(modifier));
    list(&mut language_strings, write_language_suffix(language));
    language_strings
}

/// Lists the bracketed suffixes for a locale, the most specific first. A locale
/// from which nothing can be taken, such as the empty one, has none.
pub fn prepare_language_strings(lang: String) -> (language_strings: Vec<String>)
    ensures
        language_strings.deep_view() == language_suffixes(lang@),
{
    let locale = lang.as_str();
    if locale.is_empty() {
        return Vec::new();
    }
    let full = captures_in(FULL_PATTERN, locale);
    let territory = captures_in(TERRITORY_PATTERN, locale);
    let modifier = captures_in(MODIFIER_PATTERN, locale);
    let language = captures_in(LANGUAGE_PATTERN, locale);
    language_strings_from(&full, &territory, &modifier, &language)
}

/// Lists the names to look under for the field `prefix`: the name with each
/// suffix in order, then the bare name.
pub fn create_localized_keys(prefix: &str, language_strings: &Vec<String>) -> (keys: Vec<String>)
    ensures
        keys.deep_view() == localized_keys(prefix@, language_strings.deep_view()),
{
    let mut keys: Vec<String> = Vec::new();
    let mut i: usize = 0;
    while i < language_strings.len()
        invariant
            i <= language_strings.len(),
            keys.len() == i,
            forall|k: int|
                0 <= k < i ==> (#[trigger] keys@[k])@ == prefix@ + language_strings@[k]@,
        decreases language_strings.len() - i,
    {
        let mut key = prefix.to_owned();
        key.append(language_strings[i].as_str());
        keys.push(key);
        i += 1;
    }
    keys.push(prefix.to_owned());
    keys
}

} // verus!
