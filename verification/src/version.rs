//! Semantic versions, as the `semver` crate reads and compares them.
//!
//! Nothing here is proved: each function calls the crate and states, over a
//! name for what the crate computes, that the result depends on the texts
//! that are handed in and on nothing else.

use vstd::prelude::*;

verus! {

/// The error of the `semver` crate.
#[verifier::external_type_specification]
#[verifier::external_body]
pub struct ExSemverError(semver::Error);

/// What `semver::Version::parse` makes of `text`, written out again: `None`
/// where `text` is no version.
pub uninterp spec fn shown_version(text: Seq<char>) -> Option<Seq<char>>;

/// Whether the requirement that `semver::VersionReq::parse` reads from
/// `requirement` matches the version that `semver::Version::parse` reads
/// from `version`: `None` where one of the two cannot be read.
pub uninterp spec fn requirement_admits(requirement: Seq<char>, version: Seq<char>) -> Option<bool>;

/// Reads a version with `semver::Version::parse` and writes it out again.
///
/// The contract claims that the outcome is a function of `text`.
#[verifier::external_body]
pub(crate) fn show_version(text: &str) -> (r: Result<String, semver::Error>)
    ensures
        match r {
            Ok(s) => shown_version(text@) == Some(s@),
            Err(_) => shown_version(text@) is None,
        },
{
    let version = semver::Version::parse(text)?;
    Ok(version.to_string())
}

/// Reads a requirement with `semver::VersionReq::parse` and a version with
/// `semver::Version::parse`, and asks `semver::VersionReq::matches` whether
/// the first matches the second.
///
/// The contract claims that the outcome is a function of the two texts.
#[verifier::external_body]
pub(crate) fn admits(requirement: &str, version: &str) -> (r: Result<bool, semver::Error>)
    ensures
        match r {
            Ok(b) => requirement_admits(requirement@, version@) == Some(b),
            Err(_) => requirement_admits(requirement@, version@) is None,
        },
{
    let wanted = semver::VersionReq::parse(requirement)?;
    let found = semver::Version::parse(version)?;
    Ok(wanted.matches(&found))
}

} // verus!
