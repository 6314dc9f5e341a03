//! Configuration documents (JSON manifests, TOML settings) in the library's
//! own terms, and the lookups the plugin logic makes in them.
//!
//! serde_json and toml do the parsing; a parsed document comes back as a
//! [`ConfigValue`]. Strings, booleans, lists and tables keep what they hold;
//! the scalars the plugin logic never reads (null, numbers, datetimes) all
//! come back as [`ConfigValue::Other`].

use vstd::prelude::*;

verus! {

/// A value of a parsed configuration document.
pub enum ConfigValue {
    /// A string.
    Text(String),
    /// A boolean.
    Flag(bool),
    /// An array.
    List(Vec<ConfigValue>),
    /// A table (a JSON object, a TOML table), entries in the parser's order.
    Table(Vec<ConfigEntry>),
    /// Null, a number or a datetime.
    Other,
}

/// One key of a table with its value.
pub struct ConfigEntry {
    /// The key.
    pub key: String,
    /// The value under the key.
    pub value: ConfigValue,
}

/// The value under `key` in `entries`: that of the first entry with that key.
pub open spec fn entries_lookup(entries: Seq<ConfigEntry>, key: Seq<char>) -> Option<ConfigValue>
    decreases entries.len(),
{
    if entries.len() == 0 {
        None
    } else if entries[0].key@ == key {
        Some(entries[0].value)
    } else {
        entries_lookup(entries.drop_first(), key)
    }
}

impl ConfigValue {
    /// The value under `key` where `self` is a table that has the key;
    /// `None` otherwise (as `Value::get` with a string index answers in
    /// serde_json and toml).
    pub open spec fn lookup(self, key: Seq<char>) -> Option<ConfigValue> {
        match self {
            ConfigValue::Table(entries) => entries_lookup(entries@, key),
            _ => None,
        }
    }

    /// The string `self` holds, if it is a string.
    pub open spec fn text_view(self) -> Option<Seq<char>> {
        match self {
            ConfigValue::Text(s) => Some(s@),
            _ => None,
        }
    }

    /// The boolean `self` holds, if it is a boolean.
    pub open spec fn flag_view(self) -> Option<bool> {
        match self {
            ConfigValue::Flag(b) => Some(b),
            _ => None,
        }
    }

    /// The value under `key` (see [`ConfigValue::lookup`]).
    pub fn get(&self, key: &str) -> (r: Option<&ConfigValue>)
        ensures
            match r {
                Some(v) => self.lookup(key@) == Some(*v),
                None => self.lookup(key@) is None,
            },
    {
        match self {
            ConfigValue::Table(entries) => {
                let wanted = key.to_owned();
                let n: usize = entries.len();
                let mut i: usize = 0;
                assert(entries@.skip(0) =~= entries@);
                while i < n
                    invariant
                        n == entries@.len(),
                        i <= n,
                        wanted@ == key@,
                        self.lookup(key@) == entries_lookup(entries@, key@),
                        entries_lookup(entries@, key@) == entries_lookup(entries@.skip(i as int), key@),
                    decreases n - i,
                {
                    assert(entries@.skip(i as int).drop_first() =~= entries@.skip(i + 1));
                    assert(entries@.skip(i as int)[0] == entries@[i as int]);
                    if entries[i].key == wanted {
                        return Some(&entries[i].value);
                    }
                    i = i + 1;
                }
                None
            },
            _ => None,
        }
    }

    /// The string `self` holds, if it is a string.
    pub fn text(&self) -> (r: Option<String>)
        ensures
            match r {
                Some(s) => self.text_view() == Some(s@),
                None => self.text_view() is None,
            },
    {
        match self {
            ConfigValue::Text(s) => Some(s.clone()),
            _ => None,
        }
    }

    /// The boolean `self` holds, if it is a boolean.
    pub fn flag(&self) -> (r: Option<bool>)
        ensures
            r == self.flag_view(),
    {
        match self {
            ConfigValue::Flag(b) => Some(*b),
            _ => None,
        }
    }
}

/// The string under `key` in `doc`, where `doc` is a table holding a string
/// there (`doc.get(key).and_then(as_str)` in serde_json and toml).
pub open spec fn text_field(doc: Option<ConfigValue>, key: Seq<char>) -> Option<Seq<char>> {
    match doc {
        Some(d) => match d.lookup(key) {
            Some(v) => v.text_view(),
            None => None,
        },
        None => None,
    }
}

/// The string under `key` in `doc` (see [`text_field`]).
pub fn text_field_of(doc: &ConfigValue, key: &str) -> (r: Option<String>)
    ensures
        match r {
            Some(s) => text_field(Some(*doc), key@) == Some(s@),
            None => text_field(Some(*doc), key@) is None,
        },
{
    match doc.get(key) {
        Some(v) => v.text(),
        None => None,
    }
}

/// What `serde_json::from_str::<serde_json::Value>` makes of `text`, as a
/// [`ConfigValue`]; `None` where serde_json rejects the text.
pub uninterp spec fn json_document(text: Seq<char>) -> Option<ConfigValue>;

/// What `text.parse::<toml::Value>()` (a whole TOML document) makes of
/// `text`, as a [`ConfigValue`]; `None` where toml rejects the text.
pub uninterp spec fn toml_document(text: Seq<char>) -> Option<ConfigValue>;

#[verifier::external_type_specification]
#[verifier::external_body]
pub struct ExJsonValue(serde_json::Value);

#[verifier::external_type_specification]
#[verifier::external_body]
pub struct ExTomlValue(toml::Value);

/// Turns a `serde_json::Value` into a [`ConfigValue`], variant by variant.
/// It is only run on what [`parse_json`] parsed; nothing is stated of it.
#[verifier::external_body]
fn config_from_json(v: serde_json::Value) -> ConfigValue {
    match v {
        serde_json::Value::String(s) => ConfigValue::Text(s),
        serde_json::Value::Bool(b) => ConfigValue::Flag(b),
        serde_json::Value::Array(items) => ConfigValue::List(
            items.into_iter().map(config_from_json).collect(),
        ),
        serde_json::Value::Object(map) => ConfigValue::Table(
            map.into_iter().map(|(key, value)| ConfigEntry { key, value: config_from_json(value) }).collect(),
        ),
        _ => ConfigValue::Other,
    }
}

/// Turns a `toml::Value` into a [`ConfigValue`], variant by variant.
/// It is only run on what [`parse_toml`] parsed; nothing is stated of it.
#[verifier::external_body]
fn config_from_toml(v: toml::Value) -> ConfigValue {
    match v {
        toml::Value::String(s) => ConfigValue::Text(s),
        toml::Value::Boolean(b) => ConfigValue::Flag(b),
        toml::Value::Array(items) => ConfigValue::List(
            items.into_iter().map(config_from_toml).collect(),
        ),
        toml::Value::Table(map) => ConfigValue::Table(
            map.into_iter().map(|(key, value)| ConfigEntry { key, value: config_from_toml(value) }).collect(),
        ),
        _ => ConfigValue::Other,
    }
}

/// Parses `text` with `serde_json::from_str::<serde_json::Value>`.
/// Claimed: the result is [`json_document`] of the text, a function of the
/// text alone; what JSON parses to is not spelled out.
#[verifier::external_body]
pub(crate) fn parse_json(text: &str) -> (r: Option<ConfigValue>)
    ensures
        r == json_document(text@),
{
    match serde_json::from_str::<serde_json::Value>(text) {
        Ok(v) => Some(config_from_json(v)),
        Err(_) => None,
    }
}

/// Parses `text` as a TOML document with `str::parse::<toml::Value>`.
/// Claimed: the result is [`toml_document`] of the text, a function of the
/// text alone; what TOML parses to is not spelled out.
#[verifier::external_body]
pub(crate) fn parse_toml(text: &str) -> (r: Option<ConfigValue>)
    ensures
        r == toml_document(text@),
{
    match text.parse::<toml::Value>() {
        Ok(v) => Some(config_from_toml(v)),
        Err(_) => None,
    }
}

} // verus!
