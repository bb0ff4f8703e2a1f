//! Choosing which manifest file of a package to read.
//!
//! A package directory may hold the manifest in two forms: the pristine
//! form as the author shipped it, and the canonical filename a repackaging
//! step writes.  The pristine form is preferred, so the candidates are
//! probed in that fixed order and the first one that exists wins.  This
//! module holds the decision; probing the file system is its caller's work.

use vstd::prelude::*;

verus! {

/// Why no manifest could be located for a package.
#[derive(Clone, Copy, Debug, PartialEq, Eq)]
pub enum LocateError {
    /// The package's own manifest path has no parent directory, so there is
    /// no source directory to probe.
    SourcePathUnavailable,
    /// Neither candidate manifest file exists in the source directory.
    ManifestNotFound,
}

impl LocateError {
    /// The message the error is reported with.
    pub fn message(&self) -> (r: String)
        ensures
            *self is SourcePathUnavailable ==> r@ == "Source path not available"@,
            *self is ManifestNotFound ==> r@ == "Manifest not found"@,
    {
        match self {
            LocateError::SourcePathUnavailable => String::from_str("Source path not available"),
            LocateError::ManifestNotFound => String::from_str("Manifest not found"),
        }
    }
}

/// The candidate manifest filenames, in probing order: the pristine form of
/// the manifest first, then the canonical filename.
pub fn manifest_candidates() -> (r: Vec<String>)
    ensures
        r.deep_view() =~= seq!["Cargo.toml.orig"@, "Cargo.toml"@],
{
    let mut candidates: Vec<String> = Vec::new();
    candidates.push(String::from_str("Cargo.toml.orig"));
    candidates.push(String::from_str("Cargo.toml"));
    candidates
}

/// The index of the first existing candidate, if any.
pub open spec fn first_existing(exists: Seq<bool>) -> Option<int>
    decreases exists,
{
    if exists.len() == 0 {
        None
    } else if exists[0] {
        Some(0)
    } else {
        match first_existing(exists.drop_first()) {
            Some(i) => Some(i + 1),
            None => None,
        }
    }
}

/// Which candidate, if any, `first_existing` picks: the first whose flag is
/// set.
pub proof fn lemma_first_existing(exists: Seq<bool>)
    ensures
        match first_existing(exists) {
            Some(i) => 0 <= i < exists.len() && exists[i] && (forall|j: int|
                0 <= j < i ==> !exists[j]),
            None => forall|j: int| 0 <= j < exists.len() ==> !exists[j],
        },
    decreases exists,
{
    if exists.len() > 0 {
        let rest = exists.drop_first();
        lemma_first_existing(rest);
        if !exists[0] {
            match first_existing(rest) {
                Some(k) => {
                    assert forall|j: int| 0 <= j < k + 1 implies !exists[j] by {
                        if j > 0 {
                            assert(rest[j - 1] == exists[j]);
                        }
                    }
                },
                None => {
                    assert forall|j: int| 0 <= j < exists.len() implies !exists[j] by {
                        if j > 0 {
                            assert(rest[j - 1] == exists[j]);
                        }
                    }
                },
            }
        }
    }
}

/// Decide which manifest a package's build should read.
///
/// `has_source_dir` says whether the package's manifest path has a parent
/// directory; `exists` says, candidate by candidate and in probing order,
/// whether the file exists there.  The result is the index of the first
/// existing candidate, or the error the failure is reported with.
pub fn locate_decision(has_source_dir: bool, exists: &Vec<bool>) -> (r: Result<
    usize,
    LocateError,
>)
    ensures
        match r {
            Ok(i) => has_source_dir && first_existing(exists@) == Some(i as int),
            Err(e) => match e {
                LocateError::SourcePathUnavailable => !has_source_dir,
                LocateError::ManifestNotFound => has_source_dir && first_existing(exists@)
                    is None,
            },
        },
{
    if !has_source_dir {
        return Err(LocateError::SourcePathUnavailable);
    }
    let n = exists.len();
    for i in 0..n
        invariant
            has_source_dir,
            n == exists.len(),
            forall|j: int| 0 <= j < i ==> !exists@[j],
    {
        if exists[i] {
            proof {
                lemma_first_existing(exists@);
                match first_existing(exists@) {
                    Some(k) => {
                        if k < i as int {
                            assert(!exists@[k]);
                        }
                        if k > i as int {
                            assert(!exists@[i as int]);
                        }
                    },
                    None => {
                        assert(!exists@[i as int]);
                    },
                }
                assert(first_existing(exists@) == Some(i as int));
            }
            return Ok(i);
        }
    }
    proof {
        lemma_first_existing(exists@);
        match first_existing(exists@) {
            Some(k) => {
                assert(!exists@[k]);
            },
            None => {},
        }
    }
    Err(LocateError::ManifestNotFound)
}

} // verus!
