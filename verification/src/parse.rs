//! Parsing manifest text into a document tree.
//!
//! The parser itself is the `toml` crate's; this module trusts it through a
//! single wrapper.  The tree a text parses to is named by [`toml_doc`], and
//! everything the crate proves about extraction speaks of that name.

use vstd::prelude::*;

use crate::doc::TomlNode;
use crate::doc::TomlValue;

verus! {

#[verifier::external_type_specification]
#[verifier::external_body]
pub struct ExTomlValue(toml::Value);

/// The tree that `text` parses to as a manifest document, or `None` when it
/// does not parse.  Whether and how a text parses depends on the text alone.
pub uninterp spec fn toml_doc(text: Seq<char>) -> Option<TomlNode>;

/// Relies on `toml::Value`'s variants: each is carried over one for one
/// (floats and datetimes, which the settings never hold, become `Other`).
/// Serves only the body of [`parse_document`].
#[verifier::external_body]
fn tree_of_toml(value: toml::Value) -> TomlValue {
    match value {
        toml::Value::String(s) => TomlValue::Str(s),
        toml::Value::Integer(i) => TomlValue::Int(i),
        toml::Value::Boolean(b) => TomlValue::Bool(b),
        toml::Value::Array(items) => TomlValue::Array(
            items.into_iter().map(tree_of_toml).collect(),
        ),
        toml::Value::Table(entries) => TomlValue::Table(
            entries.into_iter().map(|(k, v)| (k, tree_of_toml(v))).collect(),
        ),
        _ => TomlValue::Other,
    }
}

/// Relies on `str::parse::<toml::Value>` (the `toml` crate's parser): the
/// outcome is a function of the text alone, here named [`toml_doc`].
#[verifier::external_body]
pub(crate) fn parse_document(text: &str) -> (r: Option<TomlValue>)
    ensures
        match r {
            Some(document) => toml_doc(text@) == Some(document@),
            None => toml_doc(text@) is None,
        },
{
    match text.parse::<toml::Value>() {
        Ok(value) => Some(tree_of_toml(value)),
        Err(_) => None,
    }
}

} // verus!
