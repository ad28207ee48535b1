//! Where a release artifact is downloaded from: the per-architecture
//! download URL, built from the advertised version and the running CPU
//! architecture. The architecture mapping is an explicit allow-list — any
//! architecture outside it is refused before any network request, rather
//! than silently falling back to a wrong-architecture binary.

use crate::errors::UpdateError;
use vstd::prelude::*;
use vstd::string::*;

verus! {

/// The architectures for which release artifacts exist.
#[derive(Clone, Copy, Debug, PartialEq, Eq, Structural)]
pub enum TargetArch {
    Amd64,
    Aarch64,
}

/// The allow-list mapping from a runtime architecture identifier to the
/// artifact architecture: `x86_64` to amd64, `aarch64` to itself, anything
/// else refused.
pub open spec fn arch_target(arch: Seq<char>) -> Option<TargetArch> {
    if arch == "x86_64"@ {
        Some(TargetArch::Amd64)
    } else if arch == "aarch64"@ {
        Some(TargetArch::Aarch64)
    } else {
        None
    }
}

/// The path segment naming an artifact architecture in a download URL.
pub open spec fn arch_segment_of(t: TargetArch) -> Seq<char> {
    match t {
        TargetArch::Amd64 => "amd64"@,
        TargetArch::Aarch64 => "aarch64"@,
    }
}

/// The download URL for a version and artifact architecture:
/// `<base>/<version>/<arch>/<binary-name>`.
pub open spec fn download_url_of(version: Seq<char>, segment: Seq<char>) -> Seq<char> {
    "https://os.druid.garden/"@ + version + "/"@ + segment + "/druid-garden-os.app"@
}

/// String equality by content.
fn str_eq(a: &str, b: &str) -> (r: bool)
    ensures
        r == (a@ == b@),
{
    let owned_a: String = a.to_owned();
    let owned_b: String = b.to_owned();
    owned_a == owned_b
}

/// Maps the running platform's architecture identifier to the artifact
/// architecture, refusing with `UnsupportedPlatform` anything outside the
/// allow-list.
pub fn map_arch(arch: &str) -> (r: Result<TargetArch, UpdateError>)
    ensures
        match r {
            Ok(t) => arch_target(arch@) == Some(t),
            Err(e) => arch_target(arch@) is None && e == UpdateError::UnsupportedPlatform,
        },
{
    if str_eq(arch, "x86_64") {
        Ok(TargetArch::Amd64)
    } else if str_eq(arch, "aarch64") {
        Ok(TargetArch::Aarch64)
    } else {
        Err(UpdateError::UnsupportedPlatform)
    }
}

/// The path segment for an artifact architecture.
pub fn arch_segment(t: TargetArch) -> (r: &'static str)
    ensures
        r@ == arch_segment_of(t),
{
    match t {
        TargetArch::Amd64 => "amd64",
        TargetArch::Aarch64 => "aarch64",
    }
}

/// Builds the download URL for an already-mapped architecture.
pub fn build_download_url(version: &str, t: TargetArch) -> (url: String)
    ensures
        url@ == download_url_of(version@, arch_segment_of(t)),
{
    let segment = arch_segment(t);
    String::from_str("https://os.druid.garden/").concat(version).concat("/").concat(
        segment,
    ).concat("/druid-garden-os.app")
}

/// Builds a per-architecture download URL from a version string and the
/// running platform's architecture identifier. Refuses any architecture
/// outside the allow-list, before any network request is made.
pub fn get_download_url(version: &str, arch: &str) -> (r: Result<String, UpdateError>)
    ensures
        match r {
            Ok(url) => arch_target(arch@) matches Some(t) && url@ == download_url_of(
                version@,
                arch_segment_of(t),
            ),
            Err(e) => arch_target(arch@) is None && e == UpdateError::UnsupportedPlatform,
        },
{
    match map_arch(arch) {
        Ok(t) => Ok(build_download_url(version, t)),
        Err(e) => Err(e),
    }
}

/// Law: the architecture mapping is total and rejecting — `x86_64` maps to
/// amd64, `aarch64` maps to itself, and every other identifier maps to
/// nothing, so it is refused.
pub proof fn lemma_arch_mapping_total(arch: Seq<char>)
    ensures
        arch == "x86_64"@ ==> arch_target(arch) == Some(TargetArch::Amd64),
        arch == "aarch64"@ ==> arch_target(arch) == Some(TargetArch::Aarch64),
        arch != "x86_64"@ && arch != "aarch64"@ ==> arch_target(arch) is None,
{
    reveal_strlit("x86_64");
    reveal_strlit("aarch64");
    assert("x86_64"@.len() == 6);
    assert("aarch64"@.len() == 7);
}

} // verus!
