//! The predicates that a filter is made of. Each is a total function from a
//! record to a truth value; a field that the record lacks never is an error.

use crate::entry::{Entry, Record};
use crate::matching::regex_matches;
use crate::text::{same_text, split, split_on};
use regex::Regex;
use vstd::prelude::*;

verus! {

/// The field that holds an entry's type.
pub open spec fn type_key() -> Seq<char> {
    "Type"@
}

/// The type is `category`. False of a record without a type.
pub open spec fn type_is(record: Record, category: Seq<char>) -> bool {
    record.contains_key(type_key()) && record[type_key()] == category
}

/// The type is something other than `category`. False, too, of a record
/// without a type.
pub open spec fn type_is_not(record: Record, category: Seq<char>) -> bool {
    record.contains_key(type_key()) && record[type_key()] != category
}

/// The flag `key` is there and reads `true`, letter for letter.
pub open spec fn flag_is_true(record: Record, key: Seq<char>) -> bool {
    record.contains_key(key) && record[key] == "true"@
}

/// The flag `key` is missing, or reads `false`, letter for letter.
pub open spec fn flag_is_false(record: Record, key: Seq<char>) -> bool {
    record.contains_key(key) ==> record[key] == "false"@
}

/// The field `key` is there and `pattern` matches its value.
pub open spec fn field_matches(record: Record, key: Seq<char>, pattern: Regex) -> bool {
    record.contains_key(key) && regex_matches(pattern, record[key])
}

/// The value of the first of `keys` that the record has.
pub open spec fn first_present(record: Record, keys: Seq<Seq<char>>) -> Option<Seq<char>>
    decreases keys.len(),
{
    if keys.len() == 0 {
        None
    } else if record.contains_key(keys[0]) {
        Some(record[keys[0]])
    } else {
        first_present(record, keys.drop_first())
    }
}

/// The record has one of `keys`, and `pattern` matches the value of the
/// first of them that it has. The values under later keys play no part.
pub open spec fn localized_field_matches(
    record: Record,
    keys: Seq<Seq<char>>,
    pattern: Regex,
) -> bool {
    match first_present(record, keys) {
        Some(value) => regex_matches(pattern, value),
        None => false,
    }
}

/// `pattern` matches one of `tokens`.
pub open spec fn matches_some(pattern: Regex, tokens: Seq<Seq<char>>) -> bool {
    exists|j: int| 0 <= j < tokens.len() && regex_matches(pattern, #[trigger] tokens[j])
}

/// Every one of `patterns` matches at least one of `tokens`. One token may
/// serve several patterns.
pub open spec fn covers(patterns: Seq<Regex>, tokens: Seq<Seq<char>>) -> bool {
    forall|i: int| 0 <= i < patterns.len() ==> matches_some(#[trigger] patterns[i], tokens)
}

/// The field `key` is there, and the pieces of its value between semicolons
/// cover `patterns`.
pub open spec fn field_covers(record: Record, key: Seq<char>, patterns: Seq<Regex>) -> bool {
    record.contains_key(key) && covers(patterns, split_on(record[key], ';'))
}

/// One of the fields `keys` covers `patterns`.
pub open spec fn localized_field_covers(
    record: Record,
    keys: Seq<Seq<char>>,
    patterns: Seq<Regex>,
) -> bool {
    exists|k: int| 0 <= k < keys.len() && field_covers(record, #[trigger] keys[k], patterns)
}

/// How many of `patterns` match at least one of `tokens`.
pub open spec fn satisfied_count(patterns: Seq<Regex>, tokens: Seq<Seq<char>>) -> nat
    decreases patterns.len(),
{
    if patterns.len() == 0 {
        0
    } else {
        satisfied_count(patterns.drop_last(), tokens) + if matches_some(patterns.last(), tokens) {
            1nat
        } else {
            0nat
        }
    }
}

/// The count reaches the number of patterns exactly when the tokens cover
/// them.
pub proof fn lemma_satisfied_count(patterns: Seq<Regex>, tokens: Seq<Seq<char>>)
    ensures
        satisfied_count(patterns, tokens) <= patterns.len(),
        satisfied_count(patterns, tokens) == patterns.len() <==> covers(patterns, tokens),
    decreases patterns.len(),
{
    if patterns.len() > 0 {
        let front = patterns.drop_last();
        lemma_satisfied_count(front, tokens);
        if covers(patterns, tokens) {
            assert forall|i: int| 0 <= i < front.len() implies matches_some(
                #[trigger] front[i],
                tokens,
            ) by {
                assert(front[i] == patterns[i]);
            }
        }
        if satisfied_count(patterns, tokens) == patterns.len() {
            assert forall|i: int| 0 <= i < patterns.len() implies matches_some(
                #[trigger] patterns[i],
                tokens,
            ) by {
                if i < front.len() {
                    assert(front[i] == patterns[i]);
                }
            }
        }
    }
}

/// Whether the entry's type is `category`.
pub fn check_type(category: &str, entry: &Entry) -> (holds: bool)
    ensures
        holds == type_is(entry@, category@),
{
    match entry.get("Type") {
        Some(value) => same_text(value.as_str(), category),
        None => false,
    }
}

/// Whether the entry has a type other than `category`.
pub fn check_not_type(category: &str, entry: &Entry) -> (holds: bool)
    ensures
        holds == type_is_not(entry@, category@),
{
    match entry.get("Type") {
        Some(value) => !same_text(value.as_str(), category),
        None => false,
    }
}

/// Whether the flag `key` is set to `true`.
pub fn check_entry_true(key: &str, entry: &Entry) -> (holds: bool)
    ensures
        holds == flag_is_true(entry@, key@),
{
    match entry.get(key) {
        Some(value) => same_text(value.as_str(), "true"),
        None => false,
    }
}

/// Whether the flag `key` is set to `false`, or missing.
pub fn check_entry_false(key: &str, entry: &Entry) -> (holds: bool)
    ensures
        holds == flag_is_false(entry@, key@),
{
    match entry.get(key) {
        Some(value) => same_text(value.as_str(), "false"),
        None => true,
    }
}

/// Whether `regex` matches the value of the field `key`.
pub fn check_string_entry(key: &str, regex: &Regex, entry: &Entry) -> (holds: bool)
    ensures
        holds == field_matches(entry@, key@, *regex),
{
    match entry.get(key) {
        Some(value) => regex.is_match(value.as_str()),
        None => false,
    }
}

/// Whether `regex` matches the value under the first of `localized_keys`
/// that the entry has.
pub fn check_localized_entry(
    regex: &Regex,
    localized_keys: &Vec<String>,
    entry: &Entry,
) -> (holds: bool)
    ensures
        holds == localized_field_matches(entry@, localized_keys.deep_view(), *regex),
{
    let ghost keys = localized_keys.deep_view();
    let mut i: usize = 0;
    assert(keys.skip(0) =~= keys);
    while i < localized_keys.len()
        invariant
            keys == localized_keys.deep_view(),
            i <= localized_keys.len(),
            first_present(entry@, keys) == first_present(entry@, keys.skip(i as int)),
        decreases localized_keys.len() - i,
    {
        assert(keys.skip(i as int).drop_first() =~= keys.skip(i + 1));
        if let Some(value) = entry.get(localized_keys[i].as_str()) {
            return regex.is_match(value.as_str());
        }
        i += 1;
    }
    false
}

/// Whether `regex` matches one of `tokens`.
fn matches_any(regex: &Regex, tokens: &Vec<String>) -> (found: bool)
    ensures
        found == matches_some(*regex, tokens.deep_view()),
{
    let mut j: usize = 0;
    while j < tokens.len()
        invariant
            j <= tokens.len(),
            forall|k: int| 0 <= k < j ==> !regex_matches(*regex, #[trigger] tokens.deep_view()[k]),
        decreases tokens.len() - j,
    {
        assert(tokens.deep_view()[j as int] == tokens@[j as int]@);
        if regex.is_match(tokens[j].as_str()) {
            return true;
        }
        j += 1;
    }
    false
}

/// Whether the value of the field `key`, cut at its semicolons, covers
/// `regex_list`: counts the patterns that match one of the pieces, and
/// compares the count with their number.
pub fn check_multi_string_entry(key: &str, regex_list: &Vec<Regex>, entry: &Entry) -> (holds: bool)
    ensures
        holds == field_covers(entry@, key@, regex_list@),
{
    match entry.get(key) {
        Some(value) => {
            let regex_count = regex_list.len();
            let mut count: usize = 0;
            let values = split(value.as_str(), ';');
            let ghost tokens = values.deep_view();
            let mut i: usize = 0;
            while i < regex_count
                invariant
                    regex_count == regex_list.len(),
                    tokens == values.deep_view(),
                    i <= regex_count,
                    count <= i,
                    count == satisfied_count(regex_list@.take(i as int), tokens),
                decreases regex_count - i,
            {
                assert(regex_list@.take(i + 1).drop_last() =~= regex_list@.take(i as int));
                if matches_any(&regex_list[i], &values) {
                    count += 1;
                }
                i += 1;
            }
            proof {
                assert(regex_list@.take(regex_count as int) =~= regex_list@);
                lemma_satisfied_count(regex_list@, tokens);
            }
            count == regex_count
        },
        None => false,
    }
}

/// Whether one of the fields `localized_keys`, tried in order, covers
/// `regex_list`.
pub fn check_localized_multi_string_entry(
    regex_list: &Vec<Regex>,
    localized_keys: &Vec<String>,
    entry: &Entry,
) -> (holds: bool)
    ensures
        holds == localized_field_covers(entry@, localized_keys.deep_view(), regex_list@),
{
    let ghost keys = localized_keys.deep_view();
    let mut i: usize = 0;
    while i < localized_keys.len()
        invariant
            keys == localized_keys.deep_view(),
            i <= localized_keys.len(),
            forall|k: int| 0 <= k < i ==> !field_covers(entry@, #[trigger] keys[k], regex_list@),
        decreases localized_keys.len() - i,
    {
        assert(keys[i as int] == localized_keys@[i as int]@);
        if check_multi_string_entry(localized_keys[i].as_str(), regex_list, entry) {
            return true;
        }
        i += 1;
    }
    false
}

/// What a predicate asks of a record.
pub enum Condition {
    /// The type is `category`.
    TypeIs { category: Seq<char> },
    /// The type is there and is not `category`.
    TypeIsNot { category: Seq<char> },
    /// The flag `key` reads `true`.
    FlagIsTrue { key: Seq<char> },
    /// The flag `key` reads `false` or is missing.
    FlagIsFalse { key: Seq<char> },
    /// `pattern` matches the field `key`.
    Matches { key: Seq<char>, pattern: Regex },
    /// `pattern` matches the first of the fields `keys` that is there.
    MatchesLocalized { keys: Seq<Seq<char>>, pattern: Regex },
    /// The pieces of the field `key` cover `patterns`.
    Covers { key: Seq<char>, patterns: Seq<Regex> },
    /// The pieces of one of the fields `keys` cover `patterns`.
    CoversLocalized { keys: Seq<Seq<char>>, patterns: Seq<Regex> },
}

impl Condition {
    /// Whether the record meets the condition.
    pub open spec fn holds(self, record: Record) -> bool {
        match self {
            Condition::TypeIs { category } => type_is(record, category),
            Condition::TypeIsNot { category } => type_is_not(record, category),
            Condition::FlagIsTrue { key } => flag_is_true(record, key),
            Condition::FlagIsFalse { key } => flag_is_false(record, key),
            Condition::Matches { key, pattern } => field_matches(record, key, pattern),
            Condition::MatchesLocalized { keys, pattern } => localized_field_matches(
                record,
                keys,
                pattern,
            ),
            Condition::Covers { key, patterns } => field_covers(record, key, patterns),
            Condition::CoversLocalized { keys, patterns } => localized_field_covers(
                record,
                keys,
                patterns,
            ),
        }
    }
}

/// One predicate of a filter, with what it compares against.
pub enum Predicate {
    /// The type is `category`.
    TypeIs { category: String },
    /// The type is there and is not `category`.
    TypeIsNot { category: String },
    /// The flag `key` reads `true`.
    FlagIsTrue { key: String },
    /// The flag `key` reads `false` or is missing.
    FlagIsFalse { key: String },
    /// `regex` matches the field `key`.
    Matches { key: String, regex: Regex },
    /// `regex` matches the first of the fields `localized_keys` that is there.
    MatchesLocalized { localized_keys: Vec<String>, regex: Regex },
    /// The pieces of the field `key` cover `regex_list`.
    Covers { key: String, regex_list: Vec<Regex> },
    /// The pieces of one of the fields `localized_keys` cover `regex_list`.
    CoversLocalized { localized_keys: Vec<String>, regex_list: Vec<Regex> },
}

impl View for Predicate {
    type V = Condition;

    open spec fn view(&self) -> Condition {
        match self {
            Predicate::TypeIs { category } => Condition::TypeIs { category: category@ },
            Predicate::TypeIsNot { category } => Condition::TypeIsNot { category: category@ },
            Predicate::FlagIsTrue { key } => Condition::FlagIsTrue { key: key@ },
            Predicate::FlagIsFalse { key } => Condition::FlagIsFalse { key: key@ },
            Predicate::Matches { key, regex } => Condition::Matches { key: key@, pattern: *regex },
            Predicate::MatchesLocalized { localized_keys, regex } => Condition::MatchesLocalized {
                keys: localized_keys.deep_view(),
                pattern: *regex,
            },
            Predicate::Covers { key, regex_list } => Condition::Covers {
                key: key@,
                patterns: regex_list@,
            },
            Predicate::CoversLocalized { localized_keys, regex_list } => Condition::CoversLocalized {
                keys: localized_keys.deep_view(),
                patterns: regex_list@,
            },
        }
    }
}

impl Predicate {
    /// Whether the entry meets the predicate.
    pub fn check(&self, entry: &Entry) -> (holds: bool)
        ensures
            holds == self@.holds(entry@),
    {
        match self {
            Predicate::TypeIs { category } => check_type(category.as_str(), entry),
            Predicate::TypeIsNot { category } => check_not_type(category.as_str(), entry),
            Predicate::FlagIsTrue { key } => check_entry_true(key.as_str(), entry),
            Predicate::FlagIsFalse { key } => check_entry_false(key.as_str(), entry),
            Predicate::Matches { key, regex } => check_string_entry(key.as_str(), regex, entry),
            Predicate::MatchesLocalized { localized_keys, regex } => check_localized_entry(
                regex,
                localized_keys,
                entry,
            ),
            Predicate::Covers { key, regex_list } => check_multi_string_entry(
                key.as_str(),
                regex_list,
                entry,
            ),
            Predicate::CoversLocalized {
                localized_keys,
                regex_list,
            } => check_localized_multi_string_entry(regex_list, localized_keys, entry),
        }
    }
}

/// A record without a type meets no condition on the type: neither that the
/// type be `category`, nor that it be something else.
pub proof fn lemma_type_absent(record: Record, category: Seq<char>)
    requires
        !record.contains_key(type_key()),
    ensures
        !(Condition::TypeIs { category }).holds(record),
        !(Condition::TypeIsNot { category }).holds(record),
{
}

/// A record with a type meets exactly one of the two conditions on it.
pub proof fn lemma_type_present(record: Record, category: Seq<char>)
    requires
        record.contains_key(type_key()),
    ensures
        (Condition::TypeIs { category }).holds(record) != (Condition::TypeIsNot {
            category,
        }).holds(record),
{
}

/// A record without the flag `key` does not meet the condition that the flag
/// be set, and meets the condition that it be not.
pub proof fn lemma_flag_absent(record: Record, key: Seq<char>)
    requires
        !record.contains_key(key),
    ensures
        !(Condition::FlagIsTrue { key }).holds(record),
        (Condition::FlagIsFalse { key }).holds(record),
{
}

/// No record meets both conditions on a flag; one where the flag reads
/// neither `true` nor `false` meets neither.
pub proof fn lemma_flag_present(record: Record, key: Seq<char>)
    ensures
        !((Condition::FlagIsTrue { key }).holds(record) && (Condition::FlagIsFalse {
            key,
        }).holds(record)),
        record.contains_key(key) && record[key] != "true"@ && record[key] != "false"@ ==> !(
        Condition::FlagIsTrue { key }).holds(record) && !(Condition::FlagIsFalse {
            key,
        }).holds(record),
{
    reveal_strlit("true");
    reveal_strlit("false");
    assert("true"@.len() != "false"@.len());
}

/// A record without the field `key` meets no condition that a pattern or a
/// list of patterns puts on that field.
pub proof fn lemma_field_absent(
    record: Record,
    key: Seq<char>,
    pattern: Regex,
    patterns: Seq<Regex>,
)
    requires
        !record.contains_key(key),
    ensures
        !(Condition::Matches { key, pattern }).holds(record),
        !(Condition::Covers { key, patterns }).holds(record),
{
}

/// A record with none of the fields `keys` meets no condition that a pattern
/// or a list of patterns puts on them.
pub proof fn lemma_localized_field_absent(
    record: Record,
    keys: Seq<Seq<char>>,
    pattern: Regex,
    patterns: Seq<Regex>,
)
    requires
        forall|k: int| 0 <= k < keys.len() ==> !record.contains_key(#[trigger] keys[k]),
    ensures
        !(Condition::MatchesLocalized { keys, pattern }).holds(record),
        !(Condition::CoversLocalized { keys, patterns }).holds(record),
    decreases keys.len(),
{
    if keys.len() > 0 {
        let rest = keys.drop_first();
        assert forall|k: int| 0 <= k < rest.len() implies !record.contains_key(
            #[trigger] rest[k],
        ) by {
            assert(rest[k] == keys[k + 1]);
        }
        lemma_localized_field_absent(record, rest, pattern, patterns);
    }
}

/// Where the record has the field `keys[i]` and none of the fields before
/// it, a pattern is held against the value of that field, whatever the
/// fields after it hold.
pub proof fn lemma_localized_field_first(
    record: Record,
    keys: Seq<Seq<char>>,
    pattern: Regex,
    i: int,
)
    requires
        0 <= i < keys.len(),
        record.contains_key(keys[i]),
        forall|k: int| 0 <= k < i ==> !record.contains_key(#[trigger] keys[k]),
    ensures
        (Condition::MatchesLocalized { keys, pattern }).holds(record) == regex_matches(
            pattern,
            record[keys[i]],
        ),
    decreases i,
{
    if i > 0 {
        let rest = keys.drop_first();
        assert forall|k: int| 0 <= k < i - 1 implies !record.contains_key(#[trigger] rest[k]) by {
            assert(rest[k] == keys[k + 1]);
        }
        lemma_localized_field_first(record, rest, pattern, i - 1);
    }
}

/// Coverage does not depend on the order of the patterns, nor on how often
/// one of them is listed.
pub proof fn lemma_covers_same_patterns(
    first: Seq<Regex>,
    second: Seq<Regex>,
    tokens: Seq<Seq<char>>,
)
    requires
        forall|i: int| 0 <= i < first.len() ==> second.contains(#[trigger] first[i]),
        forall|i: int| 0 <= i < second.len() ==> first.contains(#[trigger] second[i]),
    ensures
        covers(first, tokens) == covers(second, tokens),
{
    if covers(first, tokens) {
        assert forall|i: int| 0 <= i < second.len() implies matches_some(
            #[trigger] second[i],
            tokens,
        ) by {
            let j = choose|j: int| 0 <= j < first.len() && first[j] == second[i];
            assert(matches_some(first[j], tokens));
        }
    }
    if covers(second, tokens) {
        assert forall|i: int| 0 <= i < first.len() implies matches_some(
            #[trigger] first[i],
            tokens,
        ) by {
            let j = choose|j: int| 0 <= j < second.len() && second[j] == first[i];
            assert(matches_some(second[j], tokens));
        }
    }
}

} // verus!
