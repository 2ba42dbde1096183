//! Structured documents: what a TOML or JSON text holds, as far as the
//! manifest readers look at it.

use vstd::prelude::*;

verus! {

/// A value of a document.
#[derive(Debug)]
pub enum DocValue {
    /// A string.
    Text(String),
    /// A table or object: keys with their values, each key once.
    Table(Vec<(String, DocValue)>),
    /// An array.
    List(Vec<DocValue>),
    /// JSON's `null`.
    Null,
    /// A number, a truth value or a date.
    Other,
}

/// The value that stands under `key` in the entries of a table.
pub open spec fn lookup(entries: Seq<(String, DocValue)>, key: Seq<char>) -> Option<DocValue>
    decreases entries.len(),
{
    if entries.len() == 0 {
        None
    } else if entries[0].0@ == key {
        Some(entries[0].1)
    } else {
        lookup(entries.drop_first(), key)
    }
}

/// Finds the value that stands under `key` in the entries of a table.
pub fn find<'a>(entries: &'a Vec<(String, DocValue)>, key: &str) -> (r: Option<&'a DocValue>)
    ensures
        match r {
            Some(value) => lookup(entries@, key@) == Some(*value),
            None => lookup(entries@, key@) is None,
        },
{
    let mut i: usize = 0;
    assert(entries@.skip(0) =~= entries@);
    while i < entries.len()
        invariant
            i <= entries.len(),
            lookup(entries@, key@) == lookup(entries@.skip(i as int), key@),
        decreases entries.len() - i,
    {
        if crate::text::same_text(entries[i].0.as_str(), key) {
            return Some(&entries[i].1);
        }
        assert(entries@.skip(i as int).drop_first() =~= entries@.skip(i + 1));
        i += 1;
    }
    None
}

/// `toml::Value`, a value of a TOML document as the `toml` crate holds it.
/// Nothing is said of what is inside.
#[verifier::external_type_specification]
#[verifier::external_body]
pub struct ExTomlValue(toml::Value);

/// `serde_json::Value`, a value of a JSON document as the `serde_json`
/// crate holds it. Nothing is said of what is inside.
#[verifier::external_type_specification]
#[verifier::external_body]
pub struct ExJsonValue(serde_json::Value);

/// What a TOML text holds: the document, or the parser's message where the
/// text is not TOML.
pub uninterp spec fn toml_document(text: Seq<char>) -> Result<DocValue, Seq<char>>;

/// What a JSON text holds: the document, or the parser's message where the
/// text is not JSON.
pub uninterp spec fn json_document(text: Seq<char>) -> Result<DocValue, Seq<char>>;

/// What a `toml::Value` holds: its strings, arrays and tables, the tables
/// in the order of their keys.
pub uninterp spec fn toml_content(value: toml::Value) -> DocValue;

/// What a `serde_json::Value` holds: its strings, arrays and objects, the
/// objects in the order of their keys.
pub uninterp spec fn json_content(value: serde_json::Value) -> DocValue;

/// `toml::from_str` at the type `toml::Value`: parses a TOML text. The
/// result depends on the text alone. An error is handed on as the text that
/// its `Display` gives.
#[verifier::external_body]
fn read_toml(text: &str) -> (r: Result<toml::Value, String>)
    ensures
        match r {
            Ok(value) => toml_document(text@) == Ok::<DocValue, Seq<char>>(toml_content(value)),
            Err(message) => toml_document(text@) == Err::<DocValue, Seq<char>>(message@),
        },
{
    toml::from_str::<toml::Value>(text).map_err(|e| e.to_string())
}

/// Carries a `toml::Value` over, variant by variant: strings, arrays and
/// tables keep what they hold, tables in the order in which the crate's map
/// hands out their keys; integers, floats, truth values and dates become
/// `Other`. The result depends on the value alone.
#[verifier::external_body]
fn doc_of_toml(value: toml::Value) -> (doc: DocValue)
    ensures
        doc == toml_content(value),
{
    match value {
        toml::Value::String(s) => DocValue::Text(s),
        toml::Value::Array(a) => DocValue::List(a.into_iter().map(doc_of_toml).collect()),
        toml::Value::Table(t) => DocValue::Table(
            t.into_iter().map(|(k, v)| (k, doc_of_toml(v))).collect(),
        ),
        toml::Value::Integer(_) => DocValue::Other,
        toml::Value::Float(_) => DocValue::Other,
        toml::Value::Boolean(_) => DocValue::Other,
        toml::Value::Datetime(_) => DocValue::Other,
    }
}

/// `serde_json::from_str` at the type `serde_json::Value`: parses a JSON
/// text. The result depends on the text alone. An error is handed on as the
/// text that its `Display` gives.
#[verifier::external_body]
fn read_json(text: &str) -> (r: Result<serde_json::Value, String>)
    ensures
        match r {
            Ok(value) => json_document(text@) == Ok::<DocValue, Seq<char>>(json_content(value)),
            Err(message) => json_document(text@) == Err::<DocValue, Seq<char>>(message@),
        },
{
    serde_json::from_str::<serde_json::Value>(text).map_err(|e| e.to_string())
}

/// Carries a `serde_json::Value` over, variant by variant: strings, arrays
/// and objects keep what they hold, objects in the order in which the
/// crate's map hands out their keys; numbers and truth values become
/// `Other`. The result depends on the value alone.
#[verifier::external_body]
fn doc_of_json(value: serde_json::Value) -> (doc: DocValue)
    ensures
        doc == json_content(value),
{
    match value {
        serde_json::Value::Null => DocValue::Null,
        serde_json::Value::String(s) => DocValue::Text(s),
        serde_json::Value::Array(a) => DocValue::List(a.into_iter().map(doc_of_json).collect()),
        serde_json::Value::Object(o) => DocValue::Table(
            o.into_iter().map(|(k, v)| (k, doc_of_json(v))).collect(),
        ),
        serde_json::Value::Bool(_) => DocValue::Other,
        serde_json::Value::Number(_) => DocValue::Other,
    }
}

/// Parses a TOML text.
pub fn parse_toml(text: &str) -> (r: Result<DocValue, String>)
    ensures
        match r {
            Ok(doc) => toml_document(text@) == Ok::<DocValue, Seq<char>>(doc),
            Err(message) => toml_document(text@) == Err::<DocValue, Seq<char>>(message@),
        },
{
    match read_toml(text) {
        Ok(value) => Ok(doc_of_toml(value)),
        Err(message) => Err(message),
    }
}

/// Parses a JSON text.
pub fn parse_json(text: &str) -> (r: Result<DocValue, String>)
    ensures
        match r {
            Ok(doc) => json_document(text@) == Ok::<DocValue, Seq<char>>(doc),
            Err(message) => json_document(text@) == Err::<DocValue, Seq<char>>(message@),
        },
{
    match read_json(text) {
        Ok(value) => Ok(doc_of_json(value)),
        Err(message) => Err(message),
    }
}

} // verus!
