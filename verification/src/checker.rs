//! The filter: the predicates that a configuration asks for, and their
//! evaluation on an entry. An entry passes when it meets every predicate.

use crate::configuration::{
    covering, covering_localized, flag_conditions, if_enabled, list_conditions, locale_in_force,
    localized_conditions, matching, matching_localized, patterns_of, single_value_conditions,
    suffixes_for, text_of, Configuration,
};
use crate::entry::{Entry, Record};
use crate::locale::{create_localized_keys, prepare_language_strings};
use crate::predicate::{Condition, Predicate};
use regex::Regex;
use vstd::prelude::*;

verus! {

/// The conditions that a list of predicates stands for, in the same order.
pub open spec fn conditions_of(checks: Seq<Predicate>) -> Seq<Condition> {
    Seq::new(checks.len(), |i: int| checks[i]@)
}

/// The record meets every one of the conditions.
pub open spec fn accepts(conditions: Seq<Condition>, record: Record) -> bool {
    forall|i: int| 0 <= i < conditions.len() ==> (#[trigger] conditions[i]).holds(record)
}

/// A filter for desktop entries.
pub struct Checker {
    checks: Vec<Predicate>,
}

impl View for Checker {
    type V = Seq<Condition>;

    closed spec fn view(&self) -> Seq<Condition> {
        conditions_of(self.checks@)
    }
}

/// A list of the one predicate, where there is one.
fn listed(predicate: Option<Predicate>) -> (checks: Vec<Predicate>)
    ensures
        conditions_of(checks@) == match predicate {
            Some(check) => seq![check@],
            None => seq![],
        },
{
    let mut checks: Vec<Predicate> = Vec::new();
    if let Some(check) = predicate {
        checks.push(check);
    }
    checks
}

/// The predicates of `first`, then those of `second`.
fn joined(first: Vec<Predicate>, second: Vec<Predicate>) -> (both: Vec<Predicate>)
    ensures
        conditions_of(both@) == conditions_of(first@) + conditions_of(second@),
{
    let mut both = first;
    let mut rest = second;
    both.append(&mut rest);
    both
}

/// The predicate that the type be `category`, where it is asked for.
fn type_check(enabled: bool, category: &str) -> (checks: Vec<Predicate>)
    ensures
        conditions_of(checks@) == if_enabled(enabled, Condition::TypeIs { category: category@ }),
{
    listed(
        if enabled {
            Some(Predicate::TypeIs { category: category.to_owned() })
        } else {
            None
        },
    )
}

/// The predicate that the type be other than `category`, where it is asked
/// for.
fn excluded_type_check(enabled: bool, category: &str) -> (checks: Vec<Predicate>)
    ensures
        conditions_of(checks@) == if_enabled(
            enabled,
            Condition::TypeIsNot { category: category@ },
        ),
{
    listed(
        if enabled {
            Some(Predicate::TypeIsNot { category: category.to_owned() })
        } else {
            None
        },
    )
}

/// The predicates on the flag `key` that are asked for: that it be set, that
/// it be not.
fn flag_checks(key: &str, set: bool, unset: bool) -> (checks: Vec<Predicate>)
    ensures
        conditions_of(checks@) == flag_conditions(key@, set, unset),
{
    let is_true = listed(
        if set {
            Some(Predicate::FlagIsTrue { key: key.to_owned() })
        } else {
            None
        },
    );
    let is_false = listed(
        if unset {
            Some(Predicate::FlagIsFalse { key: key.to_owned() })
        } else {
            None
        },
    );
    joined(is_true, is_false)
}

/// The predicate that `pattern` match the field `key`, where there is a
/// pattern.
fn pattern_check(key: &str, pattern: Option<Regex>) -> (checks: Vec<Predicate>)
    ensures
        conditions_of(checks@) == matching(key@, pattern),
{
    listed(
        match pattern {
            Some(regex) => Some(Predicate::Matches { key: key.to_owned(), regex }),
            None => None,
        },
    )
}

/// The predicate that the field `key` cover `patterns`, where there are
/// patterns.
fn list_check(key: &str, patterns: Option<Vec<Regex>>) -> (checks: Vec<Predicate>)
    ensures
        conditions_of(checks@) == covering(key@, patterns),
{
    listed(
        match patterns {
            Some(regex_list) => Some(Predicate::Covers { key: key.to_owned(), regex_list }),
            None => None,
        },
    )
}

/// The predicate that `pattern` match the field `prefix` under the first name
/// that the entry has for it, where there is a pattern.
fn localized_pattern_check(
    prefix: &str,
    language_strings: &Vec<String>,
    pattern: Option<Regex>,
) -> (checks: Vec<Predicate>)
    ensures
        conditions_of(checks@) == matching_localized(
            prefix@,
            language_strings.deep_view(),
            pattern,
        ),
{
    listed(
        match pattern {
            Some(regex) => Some(
                Predicate::MatchesLocalized {
                    localized_keys: create_localized_keys(prefix, language_strings),
                    regex,
                },
            ),
            None => None,
        },
    )
}

/// The predicate that the field `prefix` cover `patterns` under one of its
/// names, where there are patterns.
fn localized_list_check(
    prefix: &str,
    language_strings: &Vec<String>,
    patterns: Option<Vec<Regex>>,
) -> (checks: Vec<Predicate>)
    ensures
        conditions_of(checks@) == covering_localized(
            prefix@,
            language_strings.deep_view(),
            patterns,
        ),
{
    listed(
        match patterns {
            Some(regex_list) => Some(
                Predicate::CoversLocalized {
                    localized_keys: create_localized_keys(prefix, language_strings),
                    regex_list,
                },
            ),
            None => None,
        },
    )
}

/// The predicates on the type.
fn type_checks(conf: &Configuration) -> (checks: Vec<Predicate>)
    ensures
        conditions_of(checks@) == conf.types(),
{
    let checks = type_check(conf.application, "Application");
    let checks = joined(checks, type_check(conf.link, "Link"));
    joined(checks, type_check(conf.directory, "Directory"))
}

/// The predicates that exclude a type.
fn excluded_type_checks(conf: &Configuration) -> (checks: Vec<Predicate>)
    ensures
        conditions_of(checks@) == conf.excluded_types(),
{
    let checks = excluded_type_check(conf.not_application, "Application");
    let checks = joined(checks, excluded_type_check(conf.not_link, "Link"));
    joined(checks, excluded_type_check(conf.not_directory, "Directory"))
}

/// The predicates on the fields with one value.
fn single_value_checks(
    version: Option<Regex>,
    icon: Option<Regex>,
    try_exec: Option<Regex>,
    exec_command: Option<Regex>,
    path: Option<Regex>,
    wm_class: Option<Regex>,
    url: Option<Regex>,
) -> (checks: Vec<Predicate>)
    ensures
        conditions_of(checks@) == single_value_conditions(
            version,
            icon,
            try_exec,
            exec_command,
            path,
            wm_class,
            url,
        ),
{
    let checks = pattern_check("Version", version);
    let checks = joined(checks, pattern_check("Icon", icon));
    let checks = joined(checks, pattern_check("TryExec", try_exec));
    let checks = joined(checks, pattern_check("Exec", exec_command));
    let checks = joined(checks, pattern_check("Path", path));
    let checks = joined(checks, pattern_check("StartupWMClass", wm_class));
    joined(checks, pattern_check("URL", url))
}

/// The predicates on the flags.
fn all_flag_checks(conf: &Configuration) -> (checks: Vec<Predicate>)
    ensures
        conditions_of(checks@) == conf.flags(),
{
    let checks = flag_checks("NoDisplay", conf.no_display, conf.not_no_display);
    let checks = joined(checks, flag_checks("Hidden", conf.hidden, conf.not_hidden));
    let checks = joined(checks, flag_checks("DBusActivatable", conf.dbus, conf.not_dbus));
    let checks = joined(checks, flag_checks("Terminal", conf.terminal, conf.not_terminal));
    let checks = joined(
        checks,
        flag_checks("StartupNotify", conf.startup_notify, conf.not_startup_notify),
    );
    joined(
        checks,
        flag_checks("PrefersNonDefaultGPU", conf.non_default_gpu, conf.not_non_default_gpu),
    )
}

/// The predicates on the fields with a list of values.
fn list_checks(
    only_show_in: Option<Vec<Regex>>,
    not_show_in: Option<Vec<Regex>>,
    actions: Option<Vec<Regex>>,
    mime_type: Option<Vec<Regex>>,
    categories: Option<Vec<Regex>>,
    implements: Option<Vec<Regex>>,
) -> (checks: Vec<Predicate>)
    ensures
        conditions_of(checks@) == list_conditions(
            only_show_in,
            not_show_in,
            actions,
            mime_type,
            categories,
            implements,
        ),
{
    let checks = list_check("OnlyShowIn", only_show_in);
    let checks = joined(checks, list_check("NotShowIn", not_show_in));
    let checks = joined(checks, list_check("Actions", actions));
    let checks = joined(checks, list_check("MimeType", mime_type));
    let checks = joined(checks, list_check("Categories", categories));
    joined(checks, list_check("Implements", implements))
}

/// The predicates on the fields that a locale can select.
fn localized_checks(
    language_strings: &Vec<String>,
    name: Option<Regex>,
    generic_name: Option<Regex>,
    comment: Option<Regex>,
    keywords: Option<Vec<Regex>>,
) -> (checks: Vec<Predicate>)
    ensures
        conditions_of(checks@) == localized_conditions(
            language_strings.deep_view(),
            name,
            generic_name,
            comment,
            keywords,
        ),
{
    let checks = localized_pattern_check("Name", language_strings, name);
    let checks = joined(
        checks,
        localized_pattern_check("GenericName", language_strings, generic_name),
    );
    let checks = joined(checks, localized_pattern_check("Comment", language_strings, comment));
    joined(checks, localized_list_check("Keywords", language_strings, keywords))
}

/// Lists the suffixes of the locale in force: the one that the configuration
/// names; without one, the host's where the configuration asks for it.
fn language_strings_for(
    lang: Option<String>,
    localized: bool,
    host_locale: Option<String>,
) -> (language_strings: Vec<String>)
    ensures
        language_strings.deep_view() == suffixes_for(
            locale_in_force(text_of(lang), localized, text_of(host_locale)),
        ),
{
    match lang {
        Some(locale) => prepare_language_strings(locale),
        None => match host_locale {
            Some(locale) if localized => prepare_language_strings(locale),
            _ => Vec::new(),
        },
    }
}

impl Checker {
    /// Builds the filter that the configuration describes. `host_locale` is
    /// the locale of the host, where it has one; it is used only if the
    /// configuration asks for it and names no locale of its own.
    pub fn new(conf: Configuration, host_locale: Option<String>) -> (checker: Checker)
        ensures
            checker@ == conf.predicates(text_of(host_locale)),
    {
        let types = type_checks(&conf);
        let excluded_types = excluded_type_checks(&conf);
        let flags = all_flag_checks(&conf);
        let language_strings = language_strings_for(conf.lang, conf.localized, host_locale);

        let checks = joined(types, excluded_types);
        let checks = joined(
            checks,
            single_value_checks(
                conf.version,
                conf.icon,
                conf.try_exec,
                conf.exec_command,
                conf.path,
                conf.wm_class,
                conf.url,
            ),
        );
        let checks = joined(checks, flags);
        let checks = joined(
            checks,
            list_checks(
                conf.only_show_in,
                conf.not_show_in,
                conf.actions,
                conf.mime_type,
                conf.categories,
                conf.implements,
            ),
        );
        let checks = joined(
            checks,
            localized_checks(
                &language_strings,
                conf.name,
                conf.generic_name,
                conf.comment,
                conf.keywords,
            ),
        );
        Checker { checks }
    }

    /// Whether the entry passes the filter: whether it meets every predicate.
    /// The predicates are tried in order, up to the first that fails.
    pub fn check_entry(&self, entry: &Entry) -> (passes: bool)
        ensures
            passes == accepts(self@, entry@),
    {
        let mut i: usize = 0;
        while i < self.checks.len()
            invariant
                i <= self.checks.len(),
                forall|k: int| 0 <= k < i ==> (#[trigger] self@[k]).holds(entry@),
            decreases self.checks.len() - i,
        {
            if !self.checks[i].check(entry) {
                assert(!self@[i as int].holds(entry@));
                return false;
            }
            i += 1;
        }
        true
    }

    /// The predicates of the filter, in the order in which they are tried.
    pub fn predicates(&self) -> (checks: &Vec<Predicate>)
        ensures
            conditions_of(checks@) == self@,
    {
        &self.checks
    }
}

/// A configuration without options stands for no condition, so the filter
/// built from it lets every record pass.
pub proof fn lemma_no_options_accept_everything(
    conf: Configuration,
    host_locale: Option<Seq<char>>,
    record: Record,
)
    requires
        conf.no_options(),
    ensures
        conf.predicates(host_locale) == Seq::<Condition>::empty(),
        accepts(conf.predicates(host_locale), record),
{
}

/// Two configurations that set every option alike stand for the same
/// conditions in the same order, on hosts with the same locale.
pub proof fn lemma_same_options_same_predicates(
    first: Configuration,
    second: Configuration,
    host_locale: Option<Seq<char>>,
)
    requires
        first.agrees_with(&second),
    ensures
        first.predicates(host_locale) == second.predicates(host_locale),
{
    lemma_same_types(first, second);
    lemma_same_flags(first, second);
    lemma_same_patterns(first, second, first.suffixes(host_locale));
}

/// Equal type options stand for equal conditions on the type.
proof fn lemma_same_types(first: Configuration, second: Configuration)
    requires
        first.application == second.application,
        first.link == second.link,
        first.directory == second.directory,
        first.not_application == second.not_application,
        first.not_link == second.not_link,
        first.not_directory == second.not_directory,
    ensures
        first.types() == second.types(),
        first.excluded_types() == second.excluded_types(),
{
}

/// Equal flag options stand for equal conditions on the flags.
proof fn lemma_same_flags(first: Configuration, second: Configuration)
    requires
        first.no_display == second.no_display,
        first.not_no_display == second.not_no_display,
        first.hidden == second.hidden,
        first.not_hidden == second.not_hidden,
        first.dbus == second.dbus,
        first.not_dbus == second.not_dbus,
        first.terminal == second.terminal,
        first.not_terminal == second.not_terminal,
        first.startup_notify == second.startup_notify,
        first.not_startup_notify == second.not_startup_notify,
        first.non_default_gpu == second.non_default_gpu,
        first.not_non_default_gpu == second.not_non_default_gpu,
    ensures
        first.flags() == second.flags(),
{
}

/// Equal patterns stand for equal conditions on the fields that they are for.
proof fn lemma_same_patterns(
    first: Configuration,
    second: Configuration,
    suffixes: Seq<Seq<char>>,
)
    requires
        first.version == second.version,
        first.icon == second.icon,
        first.try_exec == second.try_exec,
        first.exec_command == second.exec_command,
        first.path == second.path,
        first.wm_class == second.wm_class,
        first.url == second.url,
        patterns_of(first.only_show_in) == patterns_of(second.only_show_in),
        patterns_of(first.not_show_in) == patterns_of(second.not_show_in),
        patterns_of(first.actions) == patterns_of(second.actions),
        patterns_of(first.mime_type) == patterns_of(second.mime_type),
        patterns_of(first.categories) == patterns_of(second.categories),
        patterns_of(first.implements) == patterns_of(second.implements),
        first.name == second.name,
        first.generic_name == second.generic_name,
        first.comment == second.comment,
        patterns_of(first.keywords) == patterns_of(second.keywords),
    ensures
        first.single_values() == second.single_values(),
        first.lists() == second.lists(),
        first.localized_fields(suffixes) == second.localized_fields(suffixes),
{
}

/// A record meets a list of conditions followed by another exactly when it
/// meets both lists.
pub proof fn lemma_accepts_both(first: Seq<Condition>, second: Seq<Condition>, record: Record)
    ensures
        accepts(first + second, record) == (accepts(first, record) && accepts(second, record)),
{
    let both = first + second;
    if accepts(both, record) {
        assert forall|i: int| 0 <= i < first.len() implies (#[trigger] first[i]).holds(record) by {
            assert(both[i] == first[i]);
        }
        assert forall|i: int| 0 <= i < second.len() implies (#[trigger] second[i]).holds(
            record,
        ) by {
            assert(both[first.len() + i] == second[i]);
        }
    }
    if accepts(first, record) && accepts(second, record) {
        assert forall|i: int| 0 <= i < both.len() implies (#[trigger] both[i]).holds(record) by {
            if i < first.len() {
                assert(both[i] == first[i]);
            } else {
                assert(both[i] == second[i - first.len()]);
            }
        }
    }
}

/// Whether a record passes does not depend on the order of the conditions:
/// two lists that hold the same conditions accept the same records.
pub proof fn lemma_accepts_in_any_order(
    first: Seq<Condition>,
    second: Seq<Condition>,
    record: Record,
)
    requires
        forall|i: int| 0 <= i < first.len() ==> second.contains(#[trigger] first[i]),
        forall|i: int| 0 <= i < second.len() ==> first.contains(#[trigger] second[i]),
    ensures
        accepts(first, record) == accepts(second, record),
{
    if accepts(first, record) {
        assert forall|i: int| 0 <= i < second.len() implies (#[trigger] second[i]).holds(
            record,
        ) by {
            let j = choose|j: int| 0 <= j < first.len() && first[j] == second[i];
            assert(first[j].holds(record));
        }
    }
    if accepts(second, record) {
        assert forall|i: int| 0 <= i < first.len() implies (#[trigger] first[i]).holds(record) by {
            let j = choose|j: int| 0 <= j < second.len() && second[j] == first[i];
            assert(second[j].holds(record));
        }
    }
}

} // verus!
