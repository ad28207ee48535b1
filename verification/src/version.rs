//! Semantic versions as ordered (major, minor, patch) triples.
//!
//! The update transaction is gated on a strict comparison: an update is
//! warranted exactly when the remote version is greater than the locally
//! installed one. A missing or unreadable local install counts as version
//! 0.0.0, so the absence of a prior install never blocks a first install.

use crate::errors::UpdateError;
use crate::manifest::Manifest;
use vstd::prelude::*;

verus! {

/// What `semver::Version::parse` accepts and, for an accepted string, the
/// numeric (major, minor, patch) triple it reports. The result depends on
/// the characters of the string alone.
pub uninterp spec fn spec_parse_semver(text: Seq<char>) -> Option<SemanticVersion>;

/// A semantic version reduced to its ordered numeric triple.
#[derive(Clone, Copy, Debug, PartialEq, Eq, Structural)]
pub struct SemanticVersion {
    pub major: u64,
    pub minor: u64,
    pub patch: u64,
}

/// Strict lexicographic order on version triples: `a` precedes `b`.
pub open spec fn version_lt(a: SemanticVersion, b: SemanticVersion) -> bool {
    a.major < b.major || (a.major == b.major && (a.minor < b.minor || (a.minor == b.minor
        && a.patch < b.patch)))
}

impl SemanticVersion {
    /// The sentinel "no version installed": 0.0.0.
    pub fn zero() -> (r: SemanticVersion)
        ensures
            r == (SemanticVersion { major: 0, minor: 0, patch: 0 }),
    {
        SemanticVersion { major: 0, minor: 0, patch: 0 }
    }

    /// Strict comparison: does `self` precede `other`?
    pub fn precedes(&self, other: &SemanticVersion) -> (r: bool)
        ensures
            r == version_lt(*self, *other),
    {
        self.major < other.major || (self.major == other.major && (self.minor < other.minor || (
        self.minor == other.minor && self.patch < other.patch)))
    }
}

/// Relies on `semver::Version::parse`: it accepts exactly the well-formed
/// semantic version strings and yields their numeric components; the
/// prerelease and build-metadata parts play no role in this library's
/// version model and are dropped.
#[verifier::external_body]
pub(crate) fn parse_semver(text: &str) -> (r: Option<SemanticVersion>)
    ensures
        r == spec_parse_semver(text@),
{
    match semver::Version::parse(text) {
        Ok(v) => Some(SemanticVersion { major: v.major, minor: v.minor, patch: v.patch }),
        Err(_) => None,
    }
}

/// Resolves the remote version advertised by a manifest: the manifest's
/// version string parsed as a semantic version, rejected as
/// `InvalidVersion` exactly when it is malformed.
pub fn resolve_remote_version(m: &Manifest) -> (r: Result<SemanticVersion, UpdateError>)
    ensures
        match r {
            Ok(v) => spec_parse_semver(m.version@) == Some(v),
            Err(e) => spec_parse_semver(m.version@) is None && e == UpdateError::InvalidVersion,
        },
{
    match parse_semver(m.version.as_str()) {
        Some(v) => Ok(v),
        None => Err(UpdateError::InvalidVersion),
    }
}

/// The local version a version-query of the installed binary resolves to:
/// the reported string parsed as a semantic version, or the 0.0.0 sentinel
/// when the query failed or its output is unparsable.
pub open spec fn spec_local_version(output: Option<String>) -> SemanticVersion {
    match output {
        Some(text) => match spec_parse_semver(text@) {
            Some(v) => v,
            None => SemanticVersion { major: 0, minor: 0, patch: 0 },
        },
        None => SemanticVersion { major: 0, minor: 0, patch: 0 },
    }
}

/// Resolves the locally installed version from the output of a
/// version-query of the live binary. A missing binary, a failed query or
/// unparsable output resolves to 0.0.0 rather than an error, so a first
/// install is never blocked.
pub fn resolve_local_version(output: &Option<String>) -> (r: SemanticVersion)
    ensures
        r == spec_local_version(*output),
{
    match output {
        Some(text) => match parse_semver(text.as_str()) {
            Some(v) => v,
            None => SemanticVersion::zero(),
        },
        None => SemanticVersion::zero(),
    }
}

/// An update proceeds exactly when the remote version is strictly newer
/// than the local one; an equal or older remote version means "up to date".
pub fn update_warranted(remote: &SemanticVersion, local: &SemanticVersion) -> (r: bool)
    ensures
        r == version_lt(*local, *remote),
{
    local.precedes(remote)
}

/// Law: `version_lt` is a strict total order on version triples —
/// irreflexive, transitive, and total (any two distinct versions compare).
pub proof fn lemma_version_order_strict_total(
    a: SemanticVersion,
    b: SemanticVersion,
    c: SemanticVersion,
)
    ensures
        !version_lt(a, a),
        version_lt(a, b) && version_lt(b, c) ==> version_lt(a, c),
        version_lt(a, b) ==> !version_lt(b, a),
        a != b ==> version_lt(a, b) || version_lt(b, a),
{
}

} // verus!
