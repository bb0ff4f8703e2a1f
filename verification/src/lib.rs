//! Build-customization metadata for documentation builds.
//!
//! A package may carry a `[package.metadata.docs.rs]` table in its manifest
//! to customize how its documentation is built.  This crate parses a manifest
//! document, locates that settings table, and reads it into a typed
//! [`PackageMetadata`] record, substituting a default for every field that is
//! absent or malformed.  It also decides, given which candidate manifest
//! files exist beside a package, which one should be read.

pub mod doc;
pub mod locator;
pub mod metadata;
pub mod parse;

pub use doc::TomlNode;
pub use doc::TomlValue;
pub use locator::LocateError;
pub use metadata::MetadataModel;
pub use metadata::PackageMetadata;
