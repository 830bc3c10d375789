//! Desktop entries: the fields of the first group of an entry file, and the
//! reader that takes them from the file's text.

use crate::text::{
    decimal, decimal_string, find_char, index_of, lines_of, next_line, substring, to_chars, trim,
    trim_range,
};
use vstd::hash_map::StringHashMap;
use vstd::prelude::*;
use vstd::string::StringExecFns;

verus! {

/// A record: each field name with its value.
pub type Record = Map<Seq<char>, Seq<char>>;

/// The record that a map from field names to strings stands for.
pub open spec fn record_of(fields: Map<Seq<char>, String>) -> Record {
    Map::new(|name: Seq<char>| fields.contains_key(name), |name: Seq<char>| fields[name]@)
}

/// The record that a list of fields builds when they are set one after
/// another: where a name occurs twice, its last value stays.
pub open spec fn record_from_pairs(pairs: Seq<(Seq<char>, Seq<char>)>) -> Record
    decreases pairs.len(),
{
    if pairs.len() == 0 {
        Map::empty()
    } else {
        record_from_pairs(pairs.drop_last()).insert(pairs.last().0, pairs.last().1)
    }
}

/// What one line of an entry file means to the reader.
pub enum LineKind {
    /// The entry's own header, a comment or a blank line.
    Ignored,
    /// The header of another group: nothing after it belongs to the entry.
    GroupHeader,
    /// A field.
    Assignment { key: Seq<char>, value: Seq<char> },
    /// A line that should hold a field and has no `=`.
    Malformed,
}

/// The header that opens the entry's own group.
pub open spec fn entry_header() -> Seq<char> {
    "[Desktop Entry]"@
}

/// What a line means. The entry's own header, letter for letter, a line that
/// starts with `#` and a line of nothing but whitespace are passed over. Of
/// the others, one that starts with `[` is the header of another group, and
/// one with a `=` is a field: the key stands before the first `=`, the value
/// behind it, both without the whitespace around them.
pub open spec fn classify(line: Seq<char>) -> LineKind {
    let eq = index_of(line, '=');
    if line == entry_header() || (line.len() > 0 && line[0] == '#') || trim(line).len() == 0 {
        LineKind::Ignored
    } else if line.len() > 0 && line[0] == '[' {
        LineKind::GroupHeader
    } else if 0 <= eq < line.len() {
        LineKind::Assignment { key: trim(line.take(eq)), value: trim(line.skip(eq + 1)) }
    } else {
        LineKind::Malformed
    }
}

/// The message for a malformed line, with the line's position counted from 0.
pub open spec fn malformed_line_message(index: nat, line: Seq<char>) -> Seq<char> {
    "Could not extract value from line "@ + decimal(index) + ": "@ + line
}

/// Reads `lines` in order into `fields`, where `index` is the position of the
/// first of them in the file. Reading ends at the header of another group, and
/// fails at the first malformed line before that.
pub open spec fn parse_lines(lines: Seq<Seq<char>>, index: nat, fields: Record) -> Result<
    Record,
    Seq<char>,
>
    decreases lines.len(),
{
    if lines.len() == 0 {
        Ok(fields)
    } else {
        match classify(lines[0]) {
            LineKind::Ignored => parse_lines(lines.drop_first(), index + 1, fields),
            LineKind::GroupHeader => Ok(fields),
            LineKind::Assignment { key, value } => parse_lines(
                lines.drop_first(),
                index + 1,
                fields.insert(key, value),
            ),
            LineKind::Malformed => Err(malformed_line_message(index, lines[0])),
        }
    }
}

/// The record that the text of an entry file holds, or the message for its
/// first malformed line.
pub open spec fn parse(contents: Seq<char>) -> Result<Record, Seq<char>> {
    parse_lines(lines_of(contents), 0, Map::empty())
}

/// The fields of one desktop entry.
pub struct Entry {
    entries: StringHashMap<String>,
}

impl View for Entry {
    type V = Record;

    closed spec fn view(&self) -> Record {
        record_of(self.entries@)
    }
}

/// Why the text of an entry file could not be read.
#[derive(Debug)]
pub struct ParseEntryError {
    pub message: String,
}

impl ParseEntryError {
    /// The error with the given message.
    pub fn new(message: String) -> (error: ParseEntryError)
        ensures
            error.message == message,
    {
        ParseEntryError { message }
    }
}

/// One line as the reader holds it: its kind, with key and value as strings.
enum Line {
    Ignored,
    GroupHeader,
    Assignment { key: String, value: String },
    Malformed,
}

impl View for Line {
    type V = LineKind;

    closed spec fn view(&self) -> LineKind {
        match self {
            Line::Ignored => LineKind::Ignored,
            Line::GroupHeader => LineKind::GroupHeader,
            Line::Assignment { key, value } => LineKind::Assignment { key: key@, value: value@ },
            Line::Malformed => LineKind::Malformed,
        }
    }
}

/// Whether `chars[from..to]` spells `word`.
fn range_spells(chars: &Vec<char>, from: usize, to: usize, word: &Vec<char>) -> (same: bool)
    requires
        from <= to <= chars.len(),
    ensures
        same == (chars@.subrange(from as int, to as int) == word@),
{
    if to - from != word.len() {
        return false;
    }
    let mut i: usize = 0;
    while i < word.len()
        invariant
            from <= to <= chars.len(),
            to - from == word.len(),
            i <= word.len(),
            forall|k: int| 0 <= k < i ==> chars@[from + k] == word@[k],
        decreases word.len() - i,
    {
        if chars[from + i] != word[i] {
            return false;
        }
        i += 1;
    }
    assert(chars@.subrange(from as int, to as int) =~= word@);
    true
}

/// Classifies the line `chars[from..to]` of `text`.
fn read_line(text: &str, chars: &Vec<char>, header: &Vec<char>, from: usize, to: usize) -> (line:
    Line)
    requires
        chars@ == text@,
        header@ == entry_header(),
        from <= to <= chars.len(),
    ensures
        line@ == classify(chars@.subrange(from as int, to as int)),
{
    let ghost whole = chars@.subrange(from as int, to as int);
    if range_spells(chars, from, to, header) {
        return Line::Ignored;
    }
    if from < to && chars[from] == '#' {
        return Line::Ignored;
    }
    let (start, stop) = trim_range(chars, from, to);
    if start == stop {
        return Line::Ignored;
    }
    if chars[from] == '[' {
        return Line::GroupHeader;
    }
    let eq = find_char(chars, from, to, '=');
    if eq == to {
        return Line::Malformed;
    }
    let (key_from, key_to) = trim_range(chars, from, eq);
    let (value_from, value_to) = trim_range(chars, eq + 1, to);
    proof {
        assert(whole.take(eq - from) =~= chars@.subrange(from as int, eq as int));
        assert(whole.skip(eq - from + 1) =~= chars@.subrange(eq + 1, to as int));
    }
    Line::Assignment {
        key: substring(text, key_from, key_to),
        value: substring(text, value_from, value_to),
    }
}

/// The error for the malformed line `line` at position `index`.
fn malformed_line_error(index: usize, line: &str) -> (error: ParseEntryError)
    ensures
        error.message@ == malformed_line_message(index as nat, line@),
{
    let mut message = "Could not extract value from line ".to_owned();
    let number = decimal_string(index);
    message.append(number.as_str());
    message.append(": ");
    message.append(line);
    ParseEntryError::new(message)
}

impl Entry {
    /// Reads the entry that the text of an entry file holds: the fields of its
    /// first group. Comments, blank lines and the group's own header are
    /// passed over; the header of another group ends the entry. A line that
    /// should hold a field and has no `=` is an error, which names the line and
    /// its position.
    pub fn new(contents: &String) -> (parsed: Result<Entry, ParseEntryError>)
        ensures
            match parsed {
                Ok(entry) => parse(contents@) == Ok::<Record, Seq<char>>(entry@),
                Err(error) => parse(contents@) == Err::<Record, Seq<char>>(error.message@),
            },
    {
        let text = contents.as_str();
        let chars = to_chars(text);
        let header = to_chars("[Desktop Entry]");
        let n = chars.len();
        let mut entries: StringHashMap<String> = StringHashMap::new();
        let mut from: usize = 0;
        let mut index: usize = 0;
        proof {
            assert(chars@.skip(0) =~= chars@);
            assert(record_of(entries@) =~= Map::empty());
        }
        while from < n
            invariant
                chars@ == text@,
                text@ == contents@,
                header@ == entry_header(),
                n == chars.len(),
                index <= from <= n,
                parse(contents@) == parse_lines(
                    lines_of(chars@.skip(from as int)),
                    index as nat,
                    record_of(entries@),
                ),
            decreases n - from,
        {
            let (to, next) = next_line(&chars, from);
            let ghost lines = lines_of(chars@.skip(from as int));
            let ghost fields = record_of(entries@);
            proof {
                assert(lines.drop_first() =~= lines_of(chars@.skip(next as int)));
            }
            match read_line(text, &chars, &header, from, to) {
                Line::Ignored => {},
                Line::GroupHeader => {
                    return Ok(Entry { entries });
                },
                Line::Assignment { key, value } => {
                    proof {
                        assert(record_of(entries@.insert(key@, value)) =~= fields.insert(
                            key@,
                            value@,
                        ));
                    }
                    entries.insert(key, value);
                },
                Line::Malformed => {
                    let line = substring(text, from, to);
                    return Err(malformed_line_error(index, line.as_str()));
                },
            }
            from = next;
            index += 1;
        }
        Ok(Entry { entries })
    }

    /// The entry with the given fields, set one after another.
    pub fn from_entries(entries: Vec<(String, String)>) -> (entry: Entry)
        ensures
            entry@ == record_from_pairs(entries.deep_view()),
    {
        let mut fields: StringHashMap<String> = StringHashMap::new();
        let mut i: usize = 0;
        while i < entries.len()
            invariant
                i <= entries.len(),
                record_of(fields@) == record_from_pairs(entries.deep_view().take(i as int)),
            decreases entries.len() - i,
        {
            let key = entries[i].0.clone();
            let value = entries[i].1.clone();
            proof {
                let pairs = entries.deep_view();
                assert(pairs.take(i + 1).drop_last() =~= pairs.take(i as int));
            }
            fields.insert(key, value);
            i += 1;
        }
        proof {
            assert(entries.deep_view().take(entries.len() as int) =~= entries.deep_view());
        }
        Entry { entries: fields }
    }

    /// The entry's fields as a map from names to values.
    pub fn get_entries(&self) -> (entries: &StringHashMap<String>)
        ensures
            record_of(entries@) == self@,
    {
        &self.entries
    }

    /// The value of the field `key`, if the entry has that field.
    pub fn get(&self, key: &str) -> (value: Option<&String>)
        ensures
            match value {
                Some(text) => self@.contains_key(key@) && self@[key@] == text@,
                None => !self@.contains_key(key@),
            },
    {
        self.entries.get(key)
    }
}

} // verus!
