//! Filters for desktop entries.
//!
//! A desktop entry is a small text file of fields, `Key=value`, that tells a
//! desktop what an application, a link or a directory is called and how it is
//! started. This library reads such entries and decides which of them pass a
//! filter: a list of predicates on their fields, all of which must hold.
//!
//! - [`entry`] reads the text of an entry file into an [`entry::Entry`].
//! - [`configuration`] holds the options of a filter and says which
//!   conditions they stand for.
//! - [`checker`] builds the filter and holds entries against it.
//! - [`predicate`] defines the single predicates.
//! - [`locale`] lists the names under which a field may stand for a locale.
//! - [`matching`] states what is taken on trust from the `regex` crate.
//! - [`text`] holds the operations on characters that the others share.
//!
//! The functions of the library are verified against their contracts. The
//! contracts speak of an entry as a map from field names to values, and of a
//! filter as a sequence of conditions.
//!
//! What the `regex` crate does is believed, not verified: that `Regex::new`,
//! `Regex::is_match` and `Regex::captures` return what the names in
//! [`matching`] stand for, each a function of its arguments alone. Which text
//! a pattern matches, and which parts of a locale the patterns in [`locale`]
//! take, is therefore no theorem of this library; its tests hold the latter
//! to examples.

pub mod checker;
pub mod configuration;
pub mod entry;
pub mod locale;
pub mod matching;
pub mod predicate;
pub mod text;
