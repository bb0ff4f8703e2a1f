//! Tests of extraction from a document tree built by hand, without the
//! parser in between.

use docsrs_metadata::PackageMetadata;
use docsrs_metadata::TomlValue;

fn table(entries: Vec<(&str, TomlValue)>) -> TomlValue {
    TomlValue::Table(
        entries
            .into_iter()
            .map(|(k, v)| (k.to_owned(), v))
            .collect(),
    )
}

fn strings(items: Vec<&str>) -> TomlValue {
    TomlValue::Array(items.into_iter().map(|s| TomlValue::Str(s.to_owned())).collect())
}

#[test]
fn from_doc_reads_every_field() {
    let settings = table(vec![
        ("features", strings(vec!["feature1", "feature2"])),
        ("all-features", TomlValue::Bool(true)),
        ("no-default-features", TomlValue::Bool(true)),
        (
            "default-target",
            TomlValue::Str("x86_64-unknown-linux-gnu".to_owned()),
        ),
        ("rustc-args", strings(vec!["--example-rustc-arg"])),
        ("rustdoc-args", strings(vec!["--example-rustdoc-arg"])),
        ("dependencies", strings(vec!["example-system-dependency"])),
    ]);
    let document = table(vec![(
        "package",
        table(vec![(
            "metadata",
            table(vec![("docs", table(vec![("rs", settings)]))]),
        )]),
    )]);

    let metadata = PackageMetadata::from_doc(&document);
    assert_eq!(
        metadata.features,
        Some(vec!["feature1".to_owned(), "feature2".to_owned()])
    );
    assert_eq!(metadata.all_features, true);
    assert_eq!(metadata.no_default_features, true);
    assert_eq!(
        metadata.default_target,
        Some("x86_64-unknown-linux-gnu".to_owned())
    );
    assert_eq!(metadata.rustc_args, Some(vec!["--example-rustc-arg".to_owned()]));
    assert_eq!(metadata.rustdoc_args, Some(vec!["--example-rustdoc-arg".to_owned()]));
    assert_eq!(
        metadata.dependencies,
        Some(vec!["example-system-dependency".to_owned()])
    );
}

#[test]
fn from_doc_without_settings_table_yields_default() {
    let document = table(vec![("package", table(vec![("name", TomlValue::Str("test".to_owned()))]))]);
    let metadata = PackageMetadata::from_doc(&document);
    assert_eq!(metadata, PackageMetadata::default());
}

#[test]
fn from_doc_step_that_is_not_a_table_yields_default() {
    let document = table(vec![(
        "package",
        table(vec![("metadata", TomlValue::Str("docs".to_owned()))]),
    )]);
    let metadata = PackageMetadata::from_doc(&document);
    assert_eq!(metadata, PackageMetadata::default());
}

#[test]
fn from_doc_mixed_array_is_discarded() {
    let settings = table(vec![(
        "features",
        TomlValue::Array(vec![TomlValue::Str("good".to_owned()), TomlValue::Int(3)]),
    )]);
    let document = table(vec![(
        "package",
        table(vec![(
            "metadata",
            table(vec![("docs", table(vec![("rs", settings)]))]),
        )]),
    )]);
    let metadata = PackageMetadata::from_doc(&document);
    assert!(metadata.features.is_none());
}

#[test]
fn from_doc_first_entry_wins() {
    let settings = table(vec![
        ("all-features", TomlValue::Bool(true)),
        ("all-features", TomlValue::Bool(false)),
    ]);
    let document = table(vec![(
        "package",
        table(vec![(
            "metadata",
            table(vec![("docs", table(vec![("rs", settings)]))]),
        )]),
    )]);
    let metadata = PackageMetadata::from_doc(&document);
    assert_eq!(metadata.all_features, true);
}
