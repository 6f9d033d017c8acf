//! The compatibility predicate: does a peer's version satisfy a requirement?
//!
//! Versions and requirements are read and compared by the `semver` crate. What it decides is
//! named here, not restated: the three names below stand for its answers, and the contracts
//! of this crate speak of them.

use vstd::prelude::*;

verus! {

/// Whether `semver::Version::parse` accepts `text`.
pub uninterp spec fn is_semantic_version(text: Seq<char>) -> bool;

/// Whether `semver::VersionReq::parse` accepts `text`.
pub uninterp spec fn is_version_requirement(text: Seq<char>) -> bool;

/// What `semver::VersionReq::matches` answers for the requirement read from `requirement`
/// and the version read from `version`. It means something only where both can be read.
pub uninterp spec fn requirement_admits(requirement: Seq<char>, version: Seq<char>) -> bool;

/// Why a version could not be judged.
#[derive(Clone, Copy, Debug, PartialEq, Eq, Structural)]
pub enum VersionParseError {
    /// The requirement is not one that can be read.
    Requirement,
    /// The version is not a semantic version.
    Version,
}

/// The predicate as a value: the requirement is read first, then the version, and the first
/// that cannot be read is the error.
pub open spec fn compatibility(version: Seq<char>, requirement: Seq<char>) -> Result<
    bool,
    VersionParseError,
> {
    if !is_version_requirement(requirement) {
        Err(VersionParseError::Requirement)
    } else if !is_semantic_version(version) {
        Err(VersionParseError::Version)
    } else {
        Ok(requirement_admits(requirement, version))
    }
}

/// Calls `semver::Version::parse` and tells whether it succeeded. Trusted: that the answer
/// depends on the text alone, which is what gives `is_semantic_version` its meaning.
#[verifier::external_body]
fn version_parses(text: &str) -> (ok: bool)
    ensures
        ok == is_semantic_version(text@),
{
    semver::Version::parse(text).is_ok()
}

/// Calls `semver::VersionReq::parse` and tells whether it succeeded. Trusted: that the answer
/// depends on the text alone, which is what gives `is_version_requirement` its meaning.
#[verifier::external_body]
fn requirement_parses(text: &str) -> (ok: bool)
    ensures
        ok == is_version_requirement(text@),
{
    semver::VersionReq::parse(text).is_ok()
}

/// Calls `semver::VersionReq::matches` on the requirement and the version read from the two
/// texts. Trusted: that the answer depends on the two texts alone, which is what gives
/// `requirement_admits` its meaning. Both texts must be readable, so neither `unwrap` fails.
#[verifier::external_body]
fn requirement_matches(requirement: &str, version: &str) -> (admitted: bool)
    requires
        is_version_requirement(requirement@),
        is_semantic_version(version@),
    ensures
        admitted == requirement_admits(requirement@, version@),
{
    let requirement = semver::VersionReq::parse(requirement).unwrap();
    let version = semver::Version::parse(version).unwrap();
    requirement.matches(&version)
}

/// Judges `version` against `requirement`.
///
/// `Ok(true)` and `Ok(false)` are the predicate's answer; an error tells which of the two
/// texts could not be read, the requirement first.
pub fn is_version_compatible(version: &str, requirement: &str) -> (verdict: Result<
    bool,
    VersionParseError,
>)
    ensures
        verdict == compatibility(version@, requirement@),
{
    if !requirement_parses(requirement) {
        Err(VersionParseError::Requirement)
    } else if !version_parses(version) {
        Err(VersionParseError::Version)
    } else {
        Ok(requirement_matches(requirement, version))
    }
}

} // verus!
