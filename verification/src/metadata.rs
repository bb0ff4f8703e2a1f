//! The typed record of build-customization settings, and its extraction
//! from a manifest document.
//!
//! Extraction is total: whatever the document holds, a record comes back.
//! The settings live in the table at the path `package.metadata.docs.rs`;
//! when the document, the path, or a single field is missing or malformed,
//! the affected fields keep their defaults and every well-formed sibling
//! field is still read.

use vstd::prelude::*;

use crate::doc::entries_model;
use crate::doc::entry_lookup;
use crate::doc::lemma_seq_model;
use crate::doc::seq_model;
use crate::doc::table_lookup;
use crate::doc::TomlNode;
use crate::doc::TomlValue;
use crate::parse::parse_document;
use crate::parse::toml_doc;

verus! {

/// Record of the build-customization settings read from a manifest.
#[derive(Clone, Debug, PartialEq)]
pub struct PackageMetadata {
    /// Features to enable for the build; absent means default features only.
    pub features: Option<Vec<String>>,
    /// Whether to build with every feature enabled.
    pub all_features: bool,
    /// Whether to build with default features disabled.
    pub no_default_features: bool,
    /// Target platform triple to build for, if overridden.
    pub default_target: Option<String>,
    /// Extra command-line arguments for the compiler.
    pub rustc_args: Option<Vec<String>>,
    /// Extra command-line arguments for the documentation generator.
    pub rustdoc_args: Option<Vec<String>>,
    /// System-level dependencies to install before the build.
    pub dependencies: Option<Vec<String>>,
}

/// Mathematical model of a [`PackageMetadata`] record.
pub struct MetadataModel {
    pub features: Option<Seq<Seq<char>>>,
    pub all_features: bool,
    pub no_default_features: bool,
    pub default_target: Option<Seq<char>>,
    pub rustc_args: Option<Seq<Seq<char>>>,
    pub rustdoc_args: Option<Seq<Seq<char>>>,
    pub dependencies: Option<Seq<Seq<char>>>,
}

/// The record every extraction starts from: nothing requested, both flags off.
pub open spec fn default_model() -> MetadataModel {
    MetadataModel {
        features: None,
        all_features: false,
        no_default_features: false,
        default_target: None,
        rustc_args: None,
        rustdoc_args: None,
        dependencies: None,
    }
}

impl View for PackageMetadata {
    type V = MetadataModel;

    open spec fn view(&self) -> MetadataModel {
        MetadataModel {
            features: self.features.deep_view(),
            all_features: self.all_features,
            no_default_features: self.no_default_features,
            default_target: self.default_target.deep_view(),
            rustc_args: self.rustc_args.deep_view(),
            rustdoc_args: self.rustdoc_args.deep_view(),
            dependencies: self.dependencies.deep_view(),
        }
    }
}

/// The entries of the sub-table named `key`, if the entry exists and is a
/// table.
pub open spec fn sub_table(
    entries: Seq<(Seq<char>, TomlNode)>,
    key: Seq<char>,
) -> Option<Seq<(Seq<char>, TomlNode)>> {
    match entry_lookup(entries, key) {
        Some(node) => node.table_entries(),
        None => None,
    }
}

/// The settings table of a document: the table reached from the document
/// root through the path `package`, `metadata`, `docs`, `rs`, where every
/// step must be a table.
pub open spec fn settings_table(document: TomlNode) -> Option<Seq<(Seq<char>, TomlNode)>> {
    match document.table_entries() {
        Some(root) => match sub_table(root, "package"@) {
            Some(package) => match sub_table(package, "metadata"@) {
                Some(meta) => match sub_table(meta, "docs"@) {
                    Some(docs) => sub_table(docs, "rs"@),
                    None => None,
                },
                None => None,
            },
            None => None,
        },
        None => None,
    }
}

/// The characters of every item, when every item is a string; `None` as
/// soon as any item is not.
pub open spec fn strings_of(items: Seq<TomlNode>) -> Option<Seq<Seq<char>>>
    decreases items,
{
    if items.len() == 0 {
        Some(Seq::empty())
    } else {
        match items[0] {
            TomlNode::Str(s) => match strings_of(items.drop_first()) {
                Some(rest) => Some(seq![s] + rest),
                None => None,
            },
            _ => None,
        }
    }
}

/// `strings_of` keeps an all-string sequence whole, in order, and rejects
/// any sequence with a non-string item.
pub proof fn lemma_strings_of(items: Seq<TomlNode>)
    ensures
        strings_of(items) is Some <==> (forall|i: int|
            0 <= i < items.len() ==> items[i] is Str),
        forall|i: int|
            0 <= i < items.len() && !(items[i] is Str) ==> strings_of(items) is None,
        match strings_of(items) {
            Some(ss) => ss.len() == items.len() && (forall|i: int|
                0 <= i < items.len() ==> ss[i] == items[i]->Str_0),
            None => true,
        },
    decreases items,
{
    if items.len() > 0 {
        let rest = items.drop_first();
        lemma_strings_of(rest);
        assert forall|i: int|
            0 <= i < items.len() && !(items[i] is Str) implies strings_of(items) is None by {
            if i > 0 {
                assert(rest[i - 1] == items[i]);
            }
        }
        if forall|i: int| 0 <= i < items.len() ==> items[i] is Str {
            assert(items[0] is Str);
            assert forall|j: int| 0 <= j < rest.len() implies rest[j] is Str by {
                assert(rest[j] == items[j + 1]);
            }
            assert(strings_of(rest) is Some);
        }
        if strings_of(items) is Some {
            assert forall|i: int| 0 <= i < items.len() implies items[i] is Str by {
                if i > 0 {
                    assert(items[i] == rest[i - 1]);
                }
            }
            let ss = strings_of(items).unwrap();
            let rs = strings_of(rest).unwrap();
            assert(ss == seq![items[0]->Str_0] + rs);
            assert forall|i: int| 0 <= i < items.len() implies ss[i] == items[i]->Str_0 by {
                if i > 0 {
                    assert(ss[i] == rs[i - 1]);
                    assert(rest[i - 1] == items[i]);
                }
            }
        }
    }
}

/// The value of the array-of-string field named `key`: present exactly when
/// the entry exists, is an array, and every item is a string.
pub open spec fn string_list_field(
    entries: Seq<(Seq<char>, TomlNode)>,
    key: Seq<char>,
) -> Option<Seq<Seq<char>>> {
    match entry_lookup(entries, key) {
        Some(node) => match node.array_items() {
            Some(items) => strings_of(items),
            None => None,
        },
        None => None,
    }
}

/// The value of the boolean field named `key`, or `dflt` when the entry is
/// missing or not a boolean.
pub open spec fn flag_field(
    entries: Seq<(Seq<char>, TomlNode)>,
    key: Seq<char>,
    dflt: bool,
) -> bool {
    match entry_lookup(entries, key) {
        Some(node) => match node.bool_value() {
            Some(b) => b,
            None => dflt,
        },
        None => dflt,
    }
}

/// The value of the string field named `key`: present exactly when the
/// entry exists and is a string.
pub open spec fn string_field(
    entries: Seq<(Seq<char>, TomlNode)>,
    key: Seq<char>,
) -> Option<Seq<char>> {
    match entry_lookup(entries, key) {
        Some(node) => node.str_chars(),
        None => None,
    }
}

/// The record extracted from a parsed document: the default record when the
/// settings table is missing, and otherwise the field-by-field reading of
/// that table.
pub open spec fn extracted_model(document: TomlNode) -> MetadataModel {
    match settings_table(document) {
        None => default_model(),
        Some(t) => MetadataModel {
            features: string_list_field(t, "features"@),
            all_features: flag_field(t, "all-features"@, false),
            no_default_features: flag_field(t, "no-default-features"@, false),
            default_target: string_field(t, "default-target"@),
            rustc_args: string_list_field(t, "rustc-args"@),
            rustdoc_args: string_list_field(t, "rustdoc-args"@),
            dependencies: string_list_field(t, "dependencies"@),
        },
    }
}

/// The record extracted from document text whose parse came out as `parsed`:
/// the default record when the text did not parse.
pub open spec fn parsed_model(parsed: Option<TomlNode>) -> MetadataModel {
    match parsed {
        Some(document) => extracted_model(document),
        None => default_model(),
    }
}

/// The entries of the sub-table of `entries` named `key`, if that entry is a
/// table.
fn lookup_sub_table<'a>(entries: &'a Vec<(String, TomlValue)>, key: &String) -> (r: Option<
    &'a Vec<(String, TomlValue)>,
>)
    ensures
        match r {
            Some(t) => sub_table(entries_model(entries@), key@) == Some(entries_model(t@)),
            None => sub_table(entries_model(entries@), key@) is None,
        },
{
    match table_lookup(entries, key) {
        Some(value) => value.as_table(),
        None => None,
    }
}

/// Every item of `items` as a string, when every item is one.
fn collect_strings(items: &Vec<TomlValue>) -> (r: Option<Vec<String>>)
    ensures
        r.deep_view() == strings_of(seq_model(items@)),
{
    proof {
        lemma_seq_model(items@);
        lemma_strings_of(seq_model(items@));
    }
    let ghost ms = seq_model(items@);
    let mut out: Vec<String> = Vec::new();
    let n = items.len();
    for i in 0..n
        invariant
            n == items.len(),
            ms == seq_model(items@),
            ms.len() == n,
            forall|j: int| 0 <= j < n ==> ms[j] == items@[j]@,
            out.deep_view().len() == i,
            forall|j: int| 0 <= j < i ==> ms[j] is Str,
            forall|j: int| 0 <= j < i ==> out.deep_view()[j] == ms[j]->Str_0,
    {
        let ghost prev = out.deep_view();
        match &items[i] {
            TomlValue::Str(s) => {
                out.push(s.clone());
                proof {
                    assert(out.deep_view() =~= prev.push(s@));
                }
            },
            _ => {
                proof {
                    assert(strings_of(ms) is None) by {
                        assert(0 <= (i as int) < ms.len() && !(ms[i as int] is Str));
                        lemma_strings_of(ms);
                    }
                }
                return None;
            },
        }
    }
    proof {
        assert(strings_of(ms) is Some);
        assert(strings_of(ms) matches Some(ss) ==> ss =~= out.deep_view());
    }
    Some(out)
}

/// The array-of-string field of `entries` named `key`.
fn get_string_list(entries: &Vec<(String, TomlValue)>, key: &String) -> (r: Option<Vec<String>>)
    ensures
        r.deep_view() == string_list_field(entries_model(entries@), key@),
{
    match table_lookup(entries, key) {
        Some(value) => match value {
            TomlValue::Array(items) => collect_strings(items),
            _ => None,
        },
        None => None,
    }
}

/// The boolean field of `entries` named `key`, or `dflt`.
fn get_flag(entries: &Vec<(String, TomlValue)>, key: &String, dflt: bool) -> (r: bool)
    ensures
        r == flag_field(entries_model(entries@), key@, dflt),
{
    match table_lookup(entries, key) {
        Some(value) => match value {
            TomlValue::Bool(b) => *b,
            _ => dflt,
        },
        None => dflt,
    }
}

/// The string field of `entries` named `key`.
fn get_string(entries: &Vec<(String, TomlValue)>, key: &String) -> (r: Option<String>)
    ensures
        r.deep_view() == string_field(entries_model(entries@), key@),
{
    match table_lookup(entries, key) {
        Some(value) => match value {
            TomlValue::Str(s) => Some(s.clone()),
            _ => None,
        },
        None => None,
    }
}

impl PackageMetadata {
    /// The record used before any field is read, and kept wherever the
    /// document supplies nothing better: every optional field absent, both
    /// boolean flags `false`.
    pub fn default() -> (r: PackageMetadata)
        ensures
            r@ == default_model(),
    {
        PackageMetadata {
            features: None,
            all_features: false,
            no_default_features: false,
            default_target: None,
            rustc_args: None,
            rustdoc_args: None,
            dependencies: None,
        }
    }

    /// Read the settings out of a parsed manifest document.
    ///
    /// Descends through `package.metadata.docs.rs`; when any step of that
    /// path is missing or not a table, the default record comes back, and
    /// otherwise each field of the settings table is read independently,
    /// keeping its default wherever the raw value has the wrong shape.
    pub fn from_doc(document: &TomlValue) -> (r: PackageMetadata)
        ensures
            r@ == extracted_model(document@),
    {
        let mut metadata = PackageMetadata::default();
        let root = match document.as_table() {
            Some(t) => t,
            None => {
                return metadata;
            },
        };
        let package = match lookup_sub_table(root, &String::from_str("package")) {
            Some(t) => t,
            None => {
                return metadata;
            },
        };
        let meta = match lookup_sub_table(package, &String::from_str("metadata")) {
            Some(t) => t,
            None => {
                return metadata;
            },
        };
        let docs = match lookup_sub_table(meta, &String::from_str("docs")) {
            Some(t) => t,
            None => {
                return metadata;
            },
        };
        let settings = match lookup_sub_table(docs, &String::from_str("rs")) {
            Some(t) => t,
            None => {
                return metadata;
            },
        };
        metadata.features = get_string_list(settings, &String::from_str("features"));
        metadata.no_default_features = get_flag(
            settings,
            &String::from_str("no-default-features"),
            metadata.no_default_features,
        );
        metadata.all_features = get_flag(
            settings,
            &String::from_str("all-features"),
            metadata.all_features,
        );
        metadata.default_target = get_string(settings, &String::from_str("default-target"));
        metadata.rustc_args = get_string_list(settings, &String::from_str("rustc-args"));
        metadata.rustdoc_args = get_string_list(settings, &String::from_str("rustdoc-args"));
        metadata.dependencies = get_string_list(settings, &String::from_str("dependencies"));
        metadata
    }

    /// Read the settings out of raw manifest text.
    ///
    /// Total over all inputs: text that does not parse as a manifest
    /// document yields the default record, and a parsed document is read by
    /// [`PackageMetadata::from_doc`].
    pub fn from_str(manifest: &str) -> (r: PackageMetadata)
        ensures
            r@ == parsed_model(toml_doc(manifest@)),
    {
        match parse_document(manifest) {
            Some(document) => PackageMetadata::from_doc(&document),
            None => PackageMetadata::default(),
        }
    }
}

/// Law: text that does not parse as a manifest document yields the default
/// record, with every optional field absent and both flags `false`.
pub proof fn lemma_unparsed_text_default(text: Seq<char>)
    requires
        toml_doc(text) is None,
    ensures
        parsed_model(toml_doc(text)) == default_model(),
{
}

/// Law: a document without the settings table at `package.metadata.docs.rs`
/// yields the default record, however deep the path breaks off.
pub proof fn lemma_missing_settings_default(document: TomlNode)
    requires
        settings_table(document) is None,
    ensures
        extracted_model(document) == default_model(),
{
}

/// Law: an array field whose items are all strings is kept whole: the same
/// number of items, in the same order.
pub proof fn lemma_string_array_kept(
    entries: Seq<(Seq<char>, TomlNode)>,
    key: Seq<char>,
    items: Seq<TomlNode>,
)
    requires
        entry_lookup(entries, key) == Some(TomlNode::Array(items)),
        forall|i: int| 0 <= i < items.len() ==> items[i] is Str,
    ensures
        string_list_field(entries, key) matches Some(ss) && ss.len() == items.len() && (forall|
            i: int,
        |
            0 <= i < items.len() ==> ss[i] == items[i]->Str_0),
{
    lemma_strings_of(items);
}

/// Law: an array field with even one non-string item is discarded whole,
/// not merely that item.
pub proof fn lemma_mixed_array_discarded(
    entries: Seq<(Seq<char>, TomlNode)>,
    key: Seq<char>,
    items: Seq<TomlNode>,
    i: int,
)
    requires
        entry_lookup(entries, key) == Some(TomlNode::Array(items)),
        0 <= i < items.len(),
        !(items[i] is Str),
    ensures
        string_list_field(entries, key) is None,
{
    lemma_strings_of(items);
}

/// Law: extraction is a function of the text alone, so two records read
/// from the same text model identically, field by field.
pub proof fn lemma_extraction_deterministic(
    text: Seq<char>,
    m1: MetadataModel,
    m2: MetadataModel,
)
    requires
        m1 == parsed_model(toml_doc(text)),
        m2 == parsed_model(toml_doc(text)),
    ensures
        m1 == m2,
{
}

} // verus!
