//! The options of a filter, and the conditions that they stand for.
//!
//! Each option that is switched on, or given a pattern, stands for one
//! condition. The conditions come in a fixed order: the types, the excluded
//! types, the fields with one value, the flags, the fields with a list, and
//! last the fields that a locale can select.

use crate::locale::{language_suffixes, localized_keys};
use crate::predicate::Condition;
use regex::Regex;
use vstd::prelude::*;

verus! {

/// The options of a filter. Options that exclude one another are not told
/// apart here: whoever fills the configuration in keeps them apart.
pub struct Configuration {
    /// Look under the names of the host's locale.
    pub localized: bool,
    /// Look under the names of this locale, whatever the host's.
    pub lang: Option<String>,
    /// `Type` is `Application`.
    pub application: bool,
    /// `Type` is `Link`.
    pub link: bool,
    /// `Type` is `Directory`.
    pub directory: bool,
    /// `Type` is there and is not `Application`.
    pub not_application: bool,
    /// `Type` is there and is not `Link`.
    pub not_link: bool,
    /// `Type` is there and is not `Directory`.
    pub not_directory: bool,
    /// `Version` matches.
    pub version: Option<Regex>,
    /// `Name` matches, under the first of its names that the entry has.
    pub name: Option<Regex>,
    /// `GenericName` matches, under the first of its names that the entry has.
    pub generic_name: Option<Regex>,
    /// `NoDisplay` is `true`.
    pub no_display: bool,
    /// `NoDisplay` is `false` or missing.
    pub not_no_display: bool,
    /// `Comment` matches, under the first of its names that the entry has.
    pub comment: Option<Regex>,
    /// `Icon` matches.
    pub icon: Option<Regex>,
    /// `Hidden` is `true`.
    pub hidden: bool,
    /// `Hidden` is `false` or missing.
    pub not_hidden: bool,
    /// Each pattern matches one of the values of `OnlyShowIn`.
    pub only_show_in: Option<Vec<Regex>>,
    /// Each pattern matches one of the values of `NotShowIn`.
    pub not_show_in: Option<Vec<Regex>>,
    /// `DBusActivatable` is `true`.
    pub dbus: bool,
    /// `DBusActivatable` is `false` or missing.
    pub not_dbus: bool,
    /// `TryExec` matches.
    pub try_exec: Option<Regex>,
    /// `Exec` matches.
    pub exec_command: Option<Regex>,
    /// `Path` matches.
    pub path: Option<Regex>,
    /// `Terminal` is `true`.
    pub terminal: bool,
    /// `Terminal` is `false` or missing.
    pub not_terminal: bool,
    /// Each pattern matches one of the values of `Actions`.
    pub actions: Option<Vec<Regex>>,
    /// Each pattern matches one of the values of `MimeType`.
    pub mime_type: Option<Vec<Regex>>,
    /// Each pattern matches one of the values of `Categories`.
    pub categories: Option<Vec<Regex>>,
    /// Each pattern matches one of the values of `Implements`.
    pub implements: Option<Vec<Regex>>,
    /// Each pattern matches one of the values of `Keywords`, under one of the
    /// names of that field.
    pub keywords: Option<Vec<Regex>>,
    /// `StartupNotify` is `true`.
    pub startup_notify: bool,
    /// `StartupNotify` is `false` or missing.
    pub not_startup_notify: bool,
    /// `StartupWMClass` matches.
    pub wm_class: Option<Regex>,
    /// `URL` matches.
    pub url: Option<Regex>,
    /// `PrefersNonDefaultGPU` is `true`.
    pub non_default_gpu: bool,
    /// `PrefersNonDefaultGPU` is `false` or missing.
    pub not_non_default_gpu: bool,
}

/// The condition, where the option is switched on.
pub open spec fn if_enabled(enabled: bool, condition: Condition) -> Seq<Condition> {
    if enabled {
        seq![condition]
    } else {
        seq![]
    }
}

/// That the pattern, where one is given, matches the field `key`.
pub open spec fn matching(key: Seq<char>, pattern: Option<Regex>) -> Seq<Condition> {
    match pattern {
        Some(regex) => seq![Condition::Matches { key, pattern: regex }],
        None => seq![],
    }
}

/// That the patterns, where any are given, are covered by the field `key`.
pub open spec fn covering(key: Seq<char>, patterns: Option<Vec<Regex>>) -> Seq<Condition> {
    match patterns {
        Some(regex_list) => seq![Condition::Covers { key, patterns: regex_list@ }],
        None => seq![],
    }
}

/// That the pattern, where one is given, matches the field `prefix` as the
/// locale selects it.
pub open spec fn matching_localized(
    prefix: Seq<char>,
    suffixes: Seq<Seq<char>>,
    pattern: Option<Regex>,
) -> Seq<Condition> {
    match pattern {
        Some(regex) => seq![
            Condition::MatchesLocalized { keys: localized_keys(prefix, suffixes), pattern: regex },
        ],
        None => seq![],
    }
}

/// That the patterns, where any are given, are covered by the field `prefix`
/// under one of the names that the locale allows.
pub open spec fn covering_localized(
    prefix: Seq<char>,
    suffixes: Seq<Seq<char>>,
    patterns: Option<Vec<Regex>>,
) -> Seq<Condition> {
    match patterns {
        Some(regex_list) => seq![
            Condition::CoversLocalized {
                keys: localized_keys(prefix, suffixes),
                patterns: regex_list@,
            },
        ],
        None => seq![],
    }
}

/// The text of a locale that may be missing.
pub open spec fn text_of(locale: Option<String>) -> Option<Seq<char>> {
    match locale {
        Some(text) => Some(text@),
        None => None,
    }
}

/// The patterns of a list that may be missing.
pub open spec fn patterns_of(list: Option<Vec<Regex>>) -> Option<Seq<Regex>> {
    match list {
        Some(regex_list) => Some(regex_list@),
        None => None,
    }
}

/// The locale in force: the one that the configuration names; without one,
/// the host's where the configuration asks for it; else none.
pub open spec fn locale_in_force(
    lang: Option<Seq<char>>,
    localized: bool,
    host_locale: Option<Seq<char>>,
) -> Option<Seq<char>> {
    match lang {
        Some(locale) => Some(locale),
        None => if localized {
            host_locale
        } else {
            None
        },
    }
}

/// The suffixes of a locale. Without a locale there are none, and only the
/// bare field names are looked under.
pub open spec fn suffixes_for(locale: Option<Seq<char>>) -> Seq<Seq<char>> {
    match locale {
        Some(text) => language_suffixes(text),
        None => seq![],
    }
}

/// The conditions on the fields with one value.
pub open spec fn single_value_conditions(
    version: Option<Regex>,
    icon: Option<Regex>,
    try_exec: Option<Regex>,
    exec_command: Option<Regex>,
    path: Option<Regex>,
    wm_class: Option<Regex>,
    url: Option<Regex>,
) -> Seq<Condition> {
    matching("Version"@, version) + matching("Icon"@, icon) + matching("TryExec"@, try_exec)
        + matching("Exec"@, exec_command) + matching("Path"@, path) + matching(
        "StartupWMClass"@,
        wm_class,
    ) + matching("URL"@, url)
}

/// The conditions on one flag: that it is set, that it is not.
pub open spec fn flag_conditions(key: Seq<char>, set: bool, unset: bool) -> Seq<Condition> {
    if_enabled(set, Condition::FlagIsTrue { key }) + if_enabled(
        unset,
        Condition::FlagIsFalse { key },
    )
}

/// The conditions on the fields with a list of values.
pub open spec fn list_conditions(
    only_show_in: Option<Vec<Regex>>,
    not_show_in: Option<Vec<Regex>>,
    actions: Option<Vec<Regex>>,
    mime_type: Option<Vec<Regex>>,
    categories: Option<Vec<Regex>>,
    implements: Option<Vec<Regex>>,
) -> Seq<Condition> {
    covering("OnlyShowIn"@, only_show_in) + covering("NotShowIn"@, not_show_in) + covering(
        "Actions"@,
        actions,
    ) + covering("MimeType"@, mime_type) + covering("Categories"@, categories) + covering(
        "Implements"@,
        implements,
    )
}

/// The conditions on the fields that a locale can select.
pub open spec fn localized_conditions(
    suffixes: Seq<Seq<char>>,
    name: Option<Regex>,
    generic_name: Option<Regex>,
    comment: Option<Regex>,
    keywords: Option<Vec<Regex>>,
) -> Seq<Condition> {
    matching_localized("Name"@, suffixes, name) + matching_localized(
        "GenericName"@,
        suffixes,
        generic_name,
    ) + matching_localized("Comment"@, suffixes, comment) + covering_localized(
        "Keywords"@,
        suffixes,
        keywords,
    )
}

impl Configuration {
    /// No option is switched on and no pattern is given. The locale settings
    /// do not count: alone they ask for nothing.
    pub open spec fn no_options(&self) -> bool {
        &&& !self.application && !self.link && !self.directory
        &&& !self.not_application && !self.not_link && !self.not_directory
        &&& self.version is None && self.icon is None && self.try_exec is None
        &&& self.exec_command is None && self.path is None && self.wm_class is None
        &&& self.url is None
        &&& !self.no_display && !self.not_no_display && !self.hidden && !self.not_hidden
        &&& !self.dbus && !self.not_dbus && !self.terminal && !self.not_terminal
        &&& !self.startup_notify && !self.not_startup_notify
        &&& !self.non_default_gpu && !self.not_non_default_gpu
        &&& self.only_show_in is None && self.not_show_in is None && self.actions is None
        &&& self.mime_type is None && self.categories is None && self.implements is None
        &&& self.name is None && self.generic_name is None && self.comment is None
        &&& self.keywords is None
    }

    /// The two configurations set every option alike.
    pub open spec fn agrees_with(&self, other: &Configuration) -> bool {
        &&& self.localized == other.localized
        &&& text_of(self.lang) == text_of(other.lang)
        &&& self.application == other.application
        &&& self.link == other.link
        &&& self.directory == other.directory
        &&& self.not_application == other.not_application
        &&& self.not_link == other.not_link
        &&& self.not_directory == other.not_directory
        &&& self.version == other.version
        &&& self.name == other.name
        &&& self.generic_name == other.generic_name
        &&& self.no_display == other.no_display
        &&& self.not_no_display == other.not_no_display
        &&& self.comment == other.comment
        &&& self.icon == other.icon
        &&& self.hidden == other.hidden
        &&& self.not_hidden == other.not_hidden
        &&& patterns_of(self.only_show_in) == patterns_of(other.only_show_in)
        &&& patterns_of(self.not_show_in) == patterns_of(other.not_show_in)
        &&& self.dbus == other.dbus
        &&& self.not_dbus == other.not_dbus
        &&& self.try_exec == other.try_exec
        &&& self.exec_command == other.exec_command
        &&& self.path == other.path
        &&& self.terminal == other.terminal
        &&& self.not_terminal == other.not_terminal
        &&& patterns_of(self.actions) == patterns_of(other.actions)
        &&& patterns_of(self.mime_type) == patterns_of(other.mime_type)
        &&& patterns_of(self.categories) == patterns_of(other.categories)
        &&& patterns_of(self.implements) == patterns_of(other.implements)
        &&& patterns_of(self.keywords) == patterns_of(other.keywords)
        &&& self.startup_notify == other.startup_notify
        &&& self.not_startup_notify == other.not_startup_notify
        &&& self.wm_class == other.wm_class
        &&& self.url == other.url
        &&& self.non_default_gpu == other.non_default_gpu
        &&& self.not_non_default_gpu == other.not_non_default_gpu
    }

    /// The suffixes of the locale in force on a host with the given locale.
    pub open spec fn suffixes(&self, host_locale: Option<Seq<char>>) -> Seq<Seq<char>> {
        suffixes_for(locale_in_force(text_of(self.lang), self.localized, host_locale))
    }

    /// The conditions on the type.
    pub open spec fn types(&self) -> Seq<Condition> {
        if_enabled(self.application, Condition::TypeIs { category: "Application"@ })
            + if_enabled(self.link, Condition::TypeIs { category: "Link"@ }) + if_enabled(
            self.directory,
            Condition::TypeIs { category: "Directory"@ },
        )
    }

    /// The conditions that exclude a type.
    pub open spec fn excluded_types(&self) -> Seq<Condition> {
        if_enabled(self.not_application, Condition::TypeIsNot { category: "Application"@ })
            + if_enabled(self.not_link, Condition::TypeIsNot { category: "Link"@ }) + if_enabled(
            self.not_directory,
            Condition::TypeIsNot { category: "Directory"@ },
        )
    }

    /// The conditions on the fields with one value.
    pub open spec fn single_values(&self) -> Seq<Condition> {
        single_value_conditions(
            self.version,
            self.icon,
            self.try_exec,
            self.exec_command,
            self.path,
            self.wm_class,
            self.url,
        )
    }

    /// The conditions on the flags.
    pub open spec fn flags(&self) -> Seq<Condition> {
        flag_conditions("NoDisplay"@, self.no_display, self.not_no_display) + flag_conditions(
            "Hidden"@,
            self.hidden,
            self.not_hidden,
        ) + flag_conditions("DBusActivatable"@, self.dbus, self.not_dbus) + flag_conditions(
            "Terminal"@,
            self.terminal,
            self.not_terminal,
        ) + flag_conditions("StartupNotify"@, self.startup_notify, self.not_startup_notify)
            + flag_conditions(
            "PrefersNonDefaultGPU"@,
            self.non_default_gpu,
            self.not_non_default_gpu,
        )
    }

    /// The conditions on the fields with a list of values.
    pub open spec fn lists(&self) -> Seq<Condition> {
        list_conditions(
            self.only_show_in,
            self.not_show_in,
            self.actions,
            self.mime_type,
            self.categories,
            self.implements,
        )
    }

    /// The conditions on the fields that a locale can select.
    pub open spec fn localized_fields(&self, suffixes: Seq<Seq<char>>) -> Seq<Condition> {
        localized_conditions(suffixes, self.name, self.generic_name, self.comment, self.keywords)
    }

    /// The conditions that the options stand for, in their fixed order.
    pub open spec fn conditions(&self, suffixes: Seq<Seq<char>>) -> Seq<Condition> {
        self.types() + self.excluded_types() + self.single_values() + self.flags() + self.lists()
            + self.localized_fields(suffixes)
    }

    /// The conditions of the filter that the configuration describes on a
    /// host with the given locale.
    pub open spec fn predicates(&self, host_locale: Option<Seq<char>>) -> Seq<Condition> {
        self.conditions(self.suffixes(host_locale))
    }
}

impl Default for Configuration {
    /// The configuration that asks for nothing.
    fn default() -> (conf: Configuration)
        ensures
            conf.no_options(),
            !conf.localized,
            conf.lang is None,
    {
        Configuration {
            localized: false,
            lang: None,
            application: false,
            link: false,
            directory: false,
            not_application: false,
            not_link: false,
            not_directory: false,
            version: None,
            name: None,
            generic_name: None,
            no_display: false,
            not_no_display: false,
            comment: None,
            icon: None,
            hidden: false,
            not_hidden: false,
            only_show_in: None,
            not_show_in: None,
            dbus: false,
            not_dbus: false,
            try_exec: None,
            exec_command: None,
            path: None,
            terminal: false,
            not_terminal: false,
            actions: None,
            mime_type: None,
            categories: None,
            implements: None,
            keywords: None,
            startup_notify: false,
            not_startup_notify: false,
            wm_class: None,
            url: None,
            non_default_gpu: false,
            not_non_default_gpu: false,
        }
    }
}

} // verus!
