//! Per-target settings kept in a TOML document.
use vstd::prelude::*;

use crate::error::AcceleratorError;

verus! {

#[verifier::external_type_specification]
#[verifier::external_body]
#[verifier::reject_recursive_types(K)]
#[verifier::reject_recursive_types(V)]
pub struct ExTomlMap<K, V>(toml::map::Map<K, V>);

#[verifier::external_type_specification]
#[verifier::external_body]
pub struct ExTomlValue(toml::Value);

/// What a TOML value holds, as far as settings are read.
pub enum TomlEntry {
    Text(Seq<char>),
    Table(Map<Seq<char>, TomlEntry>),
    Other,
}

/// The entries of a TOML table, by key.
pub uninterp spec fn table_entries(t: toml::Table) -> Map<Seq<char>, TomlEntry>;

/// What a TOML value holds.
pub uninterp spec fn value_entry(v: toml::Value) -> TomlEntry;

/// The top-level entries of the TOML document `text`, or `None` where the
/// text is no valid TOML.
pub uninterp spec fn toml_document(text: Seq<char>) -> Option<Map<Seq<char>, TomlEntry>>;

/// Relies on `FromStr` for `toml::Table`: the document's top-level table, or
/// an error for text that is no valid TOML. The outcome depends on the text
/// alone.
#[verifier::external_body]
fn parse_table(text: &str) -> (r: Option<toml::Table>)
    ensures
        r is None <==> toml_document(text@) is None,
        r matches Some(t) ==> toml_document(text@) == Some(table_entries(t)),
{
    text.parse::<toml::Table>().ok()
}

/// Relies on `toml::map::Map::remove`: takes out the value stored under `key`.
#[verifier::external_body]
fn table_remove(t: &mut toml::Table, key: &str) -> (r: Option<toml::Value>)
    ensures
        r is Some <==> table_entries(*old(t)).contains_key(key@),
        r matches Some(v) ==> value_entry(v) == table_entries(*old(t))[key@],
{
    t.remove(key)
}

/// Relies on `toml::map::Map::get`: the value stored under `key`.
#[verifier::external_body]
fn table_get<'a>(t: &'a toml::Table, key: &str) -> (r: Option<&'a toml::Value>)
    ensures
        r is Some <==> table_entries(*t).contains_key(key@),
        r matches Some(v) ==> value_entry(*v) == table_entries(*t)[key@],
{
    t.get(key)
}

/// Relies on the `toml::Value::Table` variant: a table value holds a table.
#[verifier::external_body]
fn into_table(v: toml::Value) -> (r: Option<toml::Table>)
    ensures
        r is Some <==> value_entry(v) is Table,
        r matches Some(t) ==> value_entry(v) == TomlEntry::Table(table_entries(t)),
{
    match v {
        toml::Value::Table(t) => Some(t),
        _ => None,
    }
}

/// Relies on `toml::Value::as_str`: the text of a string value.
#[verifier::external_body]
fn value_str<'a>(v: &'a toml::Value) -> (r: Option<&'a str>)
    ensures
        r is Some <==> value_entry(*v) is Text,
        r matches Some(s) ==> value_entry(*v) == TomlEntry::Text(s@),
{
    v.as_str()
}

/// The settings of one target: a section of a TOML document.
#[derive(Debug)]
pub struct Config {
    section: toml::Table,
}

/// `r` is what picking section `target` out of document `doc` gives: the
/// section where it is a table, else an error naming `target`.
pub open spec fn section_picked(
    doc: Map<Seq<char>, TomlEntry>,
    target: Seq<char>,
    r: Result<Config, AcceleratorError>,
) -> bool {
    if !doc.contains_key(target) {
        r matches Err(AcceleratorError::EntryMissing(k)) && k@ == target
    } else {
        match doc[target] {
            TomlEntry::Table(m) => r matches Ok(c) && c.entries() == m,
            _ => r matches Err(AcceleratorError::EntryInvalid(k)) && k@ == target,
        }
    }
}

impl Config {
    /// The settings, by key.
    pub closed spec fn entries(&self) -> Map<Seq<char>, TomlEntry> {
        table_entries(self.section)
    }

    /// Picks section `target` out of a parsed document.
    pub fn from_table(document: toml::Table, target: &str) -> (r: Result<Config, AcceleratorError>)
        ensures
            section_picked(table_entries(document), target@, r),
    {
        let mut document = document;
        match table_remove(&mut document, target) {
            None => Err(AcceleratorError::EntryMissing(String::from_str(target))),
            Some(value) => match into_table(value) {
                Some(section) => Ok(Config { section }),
                None => Err(AcceleratorError::EntryInvalid(String::from_str(target))),
            },
        }
    }

    /// Reads section `target` of the settings document `content`.
    pub fn parse(content: &str, target: &str) -> (r: Result<Config, AcceleratorError>)
        ensures
            toml_document(content@) is None ==> r is Err && r->Err_0 is MalformedConfig,
            toml_document(content@) matches Some(doc) ==> section_picked(doc, target@, r),
    {
        match parse_table(content) {
            None => Err(AcceleratorError::MalformedConfig),
            Some(document) => Config::from_table(document, target),
        }
    }

    /// The text of setting `key`; an error where it is absent or no string.
    pub fn get_value(&self, key: &str) -> (r: Result<String, AcceleratorError>)
        ensures
            !self.entries().contains_key(key@) ==> (r matches Err(AcceleratorError::EntryMissing(k))
                && k@ == key@),
            self.entries().contains_key(key@) ==> match self.entries()[key@] {
                TomlEntry::Text(s) => r matches Ok(v) && v@ == s,
                _ => r matches Err(AcceleratorError::EntryInvalid(k)) && k@ == key@,
            },
    {
        match table_get(&self.section, key) {
            None => Err(AcceleratorError::EntryMissing(String::from_str(key))),
            Some(value) => match value_str(value) {
                Some(s) => Ok(String::from_str(s)),
                None => Err(AcceleratorError::EntryInvalid(String::from_str(key))),
            },
        }
    }
}

} // verus!
