//! Version and download-URL resolution, one strategy per vendor.
//!
//! Each vendor resolves a requested version (or "latest") to a concrete
//! download: a URL, an archive name, the archive kind and the version string
//! the install path will carry.  The strategies that read a vendor's listing
//! page or metadata API take the fetched text as an argument; selection from
//! the parsed candidates is decided here.  Every successful resolution
//! carries a non-empty download URL; everything else is a typed error.

use vstd::prelude::*;
use vstd::string::*;

use crate::platform::{Os, jdk_arch, jdk_arch_of};
use crate::text::{
    contains_sub, first_where, has_sub, has_suffix, lemma_first_where_index,
    lemma_first_where_none,
};

verus! {

/// The forms a downloaded artifact can take.
#[derive(Clone, Copy, PartialEq, Eq, Debug, Structural)]
pub enum ArchiveKind {
    Zip,
    TarGz,
    TarXz,
    /// A self-installing executable or script, not an archive.
    RawExecutable,
}

/// What resolution produced: where to download, what the artifact is
/// called, how to unpack it, and which version it is.
pub struct ResolvedTarget {
    pub download_url: String,
    pub archive_name: String,
    pub kind: ArchiveKind,
    pub resolved_version: String,
}

/// The mathematical content of a `ResolvedTarget`.
pub struct TargetView {
    pub url: Seq<char>,
    pub name: Seq<char>,
    pub kind: ArchiveKind,
    pub version: Seq<char>,
}

impl View for ResolvedTarget {
    type V = TargetView;

    open spec fn view(&self) -> TargetView {
        TargetView {
            url: self.download_url@,
            name: self.archive_name@,
            kind: self.kind,
            version: self.resolved_version@,
        }
    }
}

/// A resolution result, with the target reduced to its view.
pub open spec fn target_result_view(r: Result<ResolvedTarget, ResolveError>) -> Result<
    TargetView,
    ResolveError,
> {
    match r {
        Ok(t) => Ok(t@),
        Err(e) => Err(e),
    }
}

/// Why resolution failed.
#[derive(Clone, Copy, PartialEq, Eq, Debug, Structural)]
pub enum ResolveError {
    /// The vendor's listing or metadata could not be fetched.
    Network,
    /// The running platform or architecture is not supported by the vendor.
    UnsupportedPlatform,
    /// The vendor needs an explicit version; "latest" cannot be resolved.
    LatestUnsupported,
    /// The vendor's listing or metadata held no suitable package.
    NoCandidate,
    /// A selected package carried no download link.
    MissingLink,
    /// The fetched listing or metadata did not have the expected structure.
    BadStructure,
}

/// The archive kind an artifact name announces, judged by its suffix.
pub open spec fn archive_kind_of(name: Seq<char>) -> Option<ArchiveKind> {
    if ".zip"@.is_suffix_of(name) {
        Some(ArchiveKind::Zip)
    } else if ".tgz"@.is_suffix_of(name) || ".tar.gz"@.is_suffix_of(name) {
        Some(ArchiveKind::TarGz)
    } else if ".tar.xz"@.is_suffix_of(name) {
        Some(ArchiveKind::TarXz)
    } else {
        None
    }
}

/// Classifies an artifact name by its suffix.
pub fn classify_archive(name: &str) -> (r: Option<ArchiveKind>)
    ensures
        r == archive_kind_of(name@),
{
    if has_suffix(name, ".zip") {
        Some(ArchiveKind::Zip)
    } else if has_suffix(name, ".tgz") || has_suffix(name, ".tar.gz") {
        Some(ArchiveKind::TarGz)
    } else if has_suffix(name, ".tar.xz") {
        Some(ArchiveKind::TarXz)
    } else {
        None
    }
}

/// The kind a resolver records for an artifact name: the suffix where it is
/// known, and a gzipped tarball otherwise (the extractor re-checks the
/// suffix and rejects what it cannot unpack).
pub open spec fn kind_for_name(name: Seq<char>) -> ArchiveKind {
    match archive_kind_of(name) {
        Some(k) => k,
        None => ArchiveKind::TarGz,
    }
}

/// Records the archive kind an artifact name announces.
pub fn kind_for_archive_name(name: &str) -> (r: ArchiveKind)
    ensures
        r == kind_for_name(name@),
{
    match classify_archive(name) {
        Some(k) => k,
        None => ArchiveKind::TarGz,
    }
}

/// The Azul metadata query for the requested version on this platform.
pub open spec fn azul_query_url_of(os: Os, arch: Seq<char>, version: Seq<char>, latest: bool) -> Seq<
    char,
> {
    if latest {
        "https://api.azul.com/metadata/v1/zulu/packages?latest=true&availability_types=ca&os="@
            + os.spec_name() + "&arch="@ + jdk_arch_of(arch) + "&package_type=jdk"@
    } else {
        "https://api.azul.com/metadata/v1/zulu/packages?java_version="@ + version + "&os="@
            + os.spec_name() + "&arch="@ + jdk_arch_of(arch)
            + "&package_type=jdk&latest=true&availability_types=ca"@
    }
}

/// Builds the Azul metadata query URL.
pub fn azul_query_url(os: Os, arch: &str, version: &str, latest: bool) -> (r: String)
    ensures
        r@ == azul_query_url_of(os, arch@, version@, latest),
{
    let a = jdk_arch(arch);
    let mut u: String;
    if latest {
        u = String::from_str(
            "https://api.azul.com/metadata/v1/zulu/packages?latest=true&availability_types=ca&os=",
        );
        u.append(os.name());
        u.append("&arch=");
        u.append(a.as_str());
        u.append("&package_type=jdk");
    } else {
        u = String::from_str("https://api.azul.com/metadata/v1/zulu/packages?java_version=");
        u.append(version);
        u.append("&os=");
        u.append(os.name());
        u.append("&arch=");
        u.append(a.as_str());
        u.append("&package_type=jdk&latest=true&availability_types=ca");
    }
    u
}

/// The Adoptium metadata query for the requested version on this platform.
pub open spec fn temurin_query_url_of(
    os: Os,
    arch: Seq<char>,
    version: Seq<char>,
    latest: bool,
) -> Seq<char> {
    if latest {
        "https://api.adoptium.net/v3/assets/latest/all/hotspot?os="@ + os.spec_name()
            + "&architecture="@ + jdk_arch_of(arch) + "&image_type=jdk"@
    } else {
        "https://api.adoptium.net/v3/assets/latest/"@ + version + "/hotspot?os="@ + os.spec_name()
            + "&architecture="@ + jdk_arch_of(arch) + "&image_type=jdk"@
    }
}

/// Builds the Adoptium metadata query URL.
pub fn temurin_query_url(os: Os, arch: &str, version: &str, latest: bool) -> (r: String)
    ensures
        r@ == temurin_query_url_of(os, arch@, version@, latest),
{
    let a = jdk_arch(arch);
    let mut u: String;
    if latest {
        u = String::from_str("https://api.adoptium.net/v3/assets/latest/all/hotspot?os=");
        u.append(os.name());
        u.append("&architecture=");
        u.append(a.as_str());
        u.append("&image_type=jdk");
    } else {
        u = String::from_str("https://api.adoptium.net/v3/assets/latest/");
        u.append(version);
        u.append("/hotspot?os=");
        u.append(os.name());
        u.append("&architecture=");
        u.append(a.as_str());
        u.append("&image_type=jdk");
    }
    u
}

/// The OpenJDK release page for a version.
pub open spec fn openjdk_page_url_of(version: Seq<char>) -> Seq<char> {
    "https://jdk.java.net/"@ + version
}

/// Builds the OpenJDK release page URL.
pub fn openjdk_page_url(version: &str) -> (r: String)
    ensures
        r@ == openjdk_page_url_of(version@),
{
    let mut u = String::from_str("https://jdk.java.net/");
    u.append(version);
    u
}

/// The Python artifact name for a version: the embeddable zip on Windows,
/// the source tarball elsewhere.
pub open spec fn python_archive_name_of(version: Seq<char>, os: Os) -> Seq<char> {
    if os == Os::Windows {
        "python-"@ + version + "-embed-amd64.zip"@
    } else {
        "Python-"@ + version + ".tgz"@
    }
}

/// The Python download URL for a version on this system.
pub open spec fn python_url_of(version: Seq<char>, os: Os) -> Seq<char> {
    "https://www.python.org/ftp/python/"@ + version + "/"@ + python_archive_name_of(version, os)
}

/// What resolving a concrete Python version produces.
pub open spec fn python_target_view(version: Seq<char>, os: Os) -> TargetView {
    TargetView {
        url: python_url_of(version, os),
        name: python_archive_name_of(version, os),
        kind: if os == Os::Windows {
            ArchiveKind::Zip
        } else {
            ArchiveKind::TarGz
        },
        version,
    }
}

/// Resolves a concrete Python version to its download.  On Windows this is
/// the embeddable zip; elsewhere it is the source tarball, which is not
/// pre-built — a known caveat of the strategy, kept as it is.
pub fn python_target(version: &str, os: Os) -> (r: ResolvedTarget)
    ensures
        r@ == python_target_view(version@, os),
        r.download_url@.len() > 0,
{
    let mut name: String;
    let kind: ArchiveKind;
    if matches!(os, Os::Windows) {
        name = String::from_str("python-");
        name.append(version);
        name.append("-embed-amd64.zip");
        kind = ArchiveKind::Zip;
    } else {
        name = String::from_str("Python-");
        name.append(version);
        name.append(".tgz");
        kind = ArchiveKind::TarGz;
    }
    let mut url = String::from_str("https://www.python.org/ftp/python/");
    url.append(version);
    url.append("/");
    url.append(name.as_str());
    proof {
        reveal_strlit("https://www.python.org/ftp/python/");
    }
    ResolvedTarget {
        download_url: url,
        archive_name: name,
        kind,
        resolved_version: String::from_str(version),
    }
}

/// The one C/C++ toolchain artifact: a fixed MinGW-w64 build for Windows.
pub open spec fn c_cpp_url() -> Seq<char> {
    "https://sourceforge.net/projects/mingw-w64/files/mingw-w64/mingw-w64-release/mingw-w64-v11.0.0.zip/download"@
}

/// Resolves the C/C++ toolchain: Windows gets one fixed MinGW-w64 archive;
/// any other system fails at once with an unsupported-platform error, so
/// that the caller can point at the system package manager instead.
pub fn resolve_c_cpp(os: Os) -> (r: Result<ResolvedTarget, ResolveError>)
    ensures
        os == Os::Windows <==> r is Ok,
        match r {
            Ok(t) => {
                &&& t.download_url@ == c_cpp_url()
                &&& t.archive_name@ == "mingw-w64-v11.0.0.zip"@
                &&& t.kind == ArchiveKind::Zip
                &&& t.resolved_version@ == "11.0.0"@
                &&& t.download_url@.len() > 0
            },
            Err(e) => e == ResolveError::UnsupportedPlatform,
        },
{
    if matches!(os, Os::Windows) {
        proof {
            reveal_strlit(
                "https://sourceforge.net/projects/mingw-w64/files/mingw-w64/mingw-w64-release/mingw-w64-v11.0.0.zip/download",
            );
        }
        Ok(
            ResolvedTarget {
                download_url: String::from_str(
                    "https://sourceforge.net/projects/mingw-w64/files/mingw-w64/mingw-w64-release/mingw-w64-v11.0.0.zip/download",
                ),
                archive_name: String::from_str("mingw-w64-v11.0.0.zip"),
                kind: ArchiveKind::Zip,
                resolved_version: String::from_str("11.0.0"),
            },
        )
    } else {
        Err(ResolveError::UnsupportedPlatform)
    }
}

/// The rustup bootstrap artifact for this system.
pub open spec fn rust_url_of(os: Os) -> Seq<char> {
    if os == Os::Windows {
        "https://win.rustup.rs/x86_64"@
    } else {
        "https://sh.rustup.rs"@
    }
}

/// The rustup bootstrap artifact name for this system.
pub open spec fn rust_archive_name_of(os: Os) -> Seq<char> {
    if os == Os::Windows {
        "rustup-init.exe"@
    } else {
        "rustup-init.sh"@
    }
}

/// Resolves the Rust toolchain: always the platform's rustup bootstrap
/// artifact, a raw self-installing executable, at version `stable`.
pub fn resolve_rust(os: Os) -> (r: ResolvedTarget)
    ensures
        r.download_url@ == rust_url_of(os),
        r.archive_name@ == rust_archive_name_of(os),
        r.kind == ArchiveKind::RawExecutable,
        r.resolved_version@ == "stable"@,
        r.download_url@.len() > 0,
{
    let url;
    let name;
    if matches!(os, Os::Windows) {
        url = String::from_str("https://win.rustup.rs/x86_64");
        name = String::from_str("rustup-init.exe");
        proof {
            reveal_strlit("https://win.rustup.rs/x86_64");
        }
    } else {
        url = String::from_str("https://sh.rustup.rs");
        name = String::from_str("rustup-init.sh");
        proof {
            reveal_strlit("https://sh.rustup.rs");
        }
    }
    ResolvedTarget {
        download_url: url,
        archive_name: name,
        kind: ArchiveKind::RawExecutable,
        resolved_version: String::from_str("stable"),
    }
}

/// One package record from the Azul metadata response.  Each field is the
/// corresponding JSON field when it was present with the expected type:
/// `name` and `download_url` as strings, `java_version` as the decimal text
/// of an integer field.
pub struct AzulPackage {
    pub name: Option<String>,
    pub download_url: Option<String>,
    pub java_version: Option<String>,
}

impl View for AzulPackage {
    type V = (Option<Seq<char>>, Option<Seq<char>>, Option<Seq<char>>);

    open spec fn view(&self) -> Self::V {
        (self.name.deep_view(), self.download_url.deep_view(), self.java_version.deep_view())
    }
}

/// What the Azul metadata response holds: one record per array element, or
/// nothing when the body is not a JSON array.  The value depends on the body
/// alone.
pub uninterp spec fn azul_packages_of(body: Seq<char>) -> Option<
    Seq<(Option<Seq<char>>, Option<Seq<char>>, Option<Seq<char>>)>,
>;

/// Relies on serde_json::from_str and serde_json::Value's accessors: parses
/// the Azul metadata response and copies each array element's "name",
/// "download_url" (strings) and "java_version" (integer, rendered as
/// decimal text) out; `None` when the body is not a JSON array.
#[verifier::external_body]
pub(crate) fn parse_azul_packages(body: &str) -> (r: Option<Vec<AzulPackage>>)
    ensures
        match r {
            Some(ps) => azul_packages_of(body@) == Some(
                ps@.map_values(|p: AzulPackage| p@),
            ),
            None => azul_packages_of(body@) is None,
        },
{
    let v: serde_json::Value = serde_json::from_str(body).ok()?;
    Some(
        v.as_array()?.iter().map(
            |p| AzulPackage {
                name: p.get("name").and_then(serde_json::Value::as_str).map(str::to_string),
                download_url: p.get("download_url").and_then(serde_json::Value::as_str).map(str::to_string),
                java_version: p.get("java_version").and_then(serde_json::Value::as_i64).map(|n| n.to_string()),
            },
        ).collect(),
    )
}

/// A package whose name marks it as a plain JDK zip.
pub open spec fn azul_candidate(p: (Option<Seq<char>>, Option<Seq<char>>, Option<Seq<char>>)) -> bool {
    match p.0 {
        Some(n) => has_sub(n, "-jdk"@) && ".zip"@.is_suffix_of(n),
        None => false,
    }
}

/// A package name free of the specialized `crac` and `fx` JVM variants.
pub open spec fn azul_plain(p: (Option<Seq<char>>, Option<Seq<char>>, Option<Seq<char>>)) -> bool {
    match p.0 {
        Some(n) => !has_sub(n, "crac"@) && !has_sub(n, "fx"@),
        None => false,
    }
}

/// A package name free of the `crac` variant.
pub open spec fn azul_no_crac(p: (Option<Seq<char>>, Option<Seq<char>>, Option<Seq<char>>)) -> bool {
    match p.0 {
        Some(n) => !has_sub(n, "crac"@),
        None => false,
    }
}

/// The package the Azul strategy selects: among JDK zip candidates, the
/// first plain one; failing that, the first without the `crac` variant;
/// failing that, the first candidate of any kind.
pub open spec fn azul_selected(
    ps: Seq<(Option<Seq<char>>, Option<Seq<char>>, Option<Seq<char>>)>,
) -> Option<(Option<Seq<char>>, Option<Seq<char>>, Option<Seq<char>>)> {
    match first_where(
        ps,
        |p: (Option<Seq<char>>, Option<Seq<char>>, Option<Seq<char>>)|
            azul_candidate(p) && azul_plain(p),
    ) {
        Some(p) => Some(p),
        None => match first_where(
            ps,
            |p: (Option<Seq<char>>, Option<Seq<char>>, Option<Seq<char>>)|
                azul_candidate(p) && azul_no_crac(p),
        ) {
            Some(p) => Some(p),
            None => first_where(
                ps,
                |p: (Option<Seq<char>>, Option<Seq<char>>, Option<Seq<char>>)| azul_candidate(p),
            ),
        },
    }
}

/// What Azul resolution returns for a parsed package list: the selected
/// package's link, name and version, or the error naming what was missing.
pub open spec fn azul_resolution(
    ps: Seq<(Option<Seq<char>>, Option<Seq<char>>, Option<Seq<char>>)>,
    requested: Seq<char>,
) -> Result<TargetView, ResolveError> {
    match azul_selected(ps) {
        None => Err(ResolveError::NoCandidate),
        Some(p) => match p.1 {
            None => Err(ResolveError::MissingLink),
            Some(url) => if url.len() == 0 {
                Err(ResolveError::MissingLink)
            } else {
                Ok(
                    TargetView {
                        url,
                        name: match p.0 {
                            Some(n) => n,
                            None => Seq::empty(),
                        },
                        kind: ArchiveKind::Zip,
                        version: match p.2 {
                            Some(v) => v,
                            None => requested,
                        },
                    },
                )
            },
        },
    }
}

/// The three passes of the Azul selection.
#[derive(Clone, Copy, PartialEq, Eq, Structural)]
enum AzulPass {
    Plain,
    NoCrac,
    Any,
}

/// The predicate a pass selects by.
spec fn azul_pass_pred(m: AzulPass, p: (Option<Seq<char>>, Option<Seq<char>>, Option<Seq<char>>)) -> bool {
    match m {
        AzulPass::Plain => azul_candidate(p) && azul_plain(p),
        AzulPass::NoCrac => azul_candidate(p) && azul_no_crac(p),
        AzulPass::Any => azul_candidate(p),
    }
}

/// Tests one package against a pass's predicate.
fn azul_pass_test(m: AzulPass, p: &AzulPackage) -> (r: bool)
    ensures
        r == azul_pass_pred(m, p@),
{
    let cand = match &p.name {
        Some(n) => contains_sub(n.as_str(), "-jdk") && has_suffix(n.as_str(), ".zip"),
        None => false,
    };
    match m {
        AzulPass::Plain => cand && match &p.name {
            Some(n) => !contains_sub(n.as_str(), "crac") && !contains_sub(n.as_str(), "fx"),
            None => false,
        },
        AzulPass::NoCrac => cand && match &p.name {
            Some(n) => !contains_sub(n.as_str(), "crac"),
            None => false,
        },
        AzulPass::Any => cand,
    }
}

/// Finds the first package a pass accepts.
fn azul_find(pkgs: &Vec<AzulPackage>, m: AzulPass) -> (r: Option<usize>)
    ensures
        match r {
            Some(i) => i < pkgs@.len() && azul_pass_pred(m, pkgs@[i as int]@) && forall|j: int|
                0 <= j < i ==> !azul_pass_pred(m, pkgs@[j]@),
            None => forall|j: int| 0 <= j < pkgs@.len() ==> !azul_pass_pred(m, pkgs@[j]@),
        },
{
    let mut i: usize = 0;
    while i < pkgs.len()
        invariant
            i <= pkgs@.len(),
            forall|j: int| 0 <= j < i ==> !azul_pass_pred(m, pkgs@[j]@),
        decreases pkgs@.len() - i,
    {
        if azul_pass_test(m, &pkgs[i]) {
            return Some(i);
        }
        i += 1;
    }
    None
}

/// Resolves the Azul strategy over a parsed package list, as
/// `azul_resolution` describes.
pub fn resolve_azul_from(pkgs: &Vec<AzulPackage>, requested_version: &str) -> (r: Result<
    ResolvedTarget,
    ResolveError,
>)
    ensures
        target_result_view(r) == azul_resolution(
            pkgs@.map_values(|p: AzulPackage| p@),
            requested_version@,
        ),
        r is Ok ==> r->Ok_0.download_url@.len() > 0,
{
    let ghost vs = pkgs@.map_values(|p: AzulPackage| p@);
    let found = match azul_find(pkgs, AzulPass::Plain) {
        Some(i) => Some(i),
        None => match azul_find(pkgs, AzulPass::NoCrac) {
            Some(i) => Some(i),
            None => azul_find(pkgs, AzulPass::Any),
        },
    };
    proof {
        let plain = |p: (Option<Seq<char>>, Option<Seq<char>>, Option<Seq<char>>)|
            azul_candidate(p) && azul_plain(p);
        let no_crac = |p: (Option<Seq<char>>, Option<Seq<char>>, Option<Seq<char>>)|
            azul_candidate(p) && azul_no_crac(p);
        let any = |p: (Option<Seq<char>>, Option<Seq<char>>, Option<Seq<char>>)| azul_candidate(p);
        match found {
            Some(i) => {
                let fi = i as int;
                if azul_pass_pred(AzulPass::Plain, vs[fi]) && (forall|j: int|
                    0 <= j < fi ==> !azul_pass_pred(AzulPass::Plain, vs[j])) {
                    lemma_first_where_index(vs, plain, fi);
                } else {
                    lemma_first_where_none(vs, plain);
                    if azul_pass_pred(AzulPass::NoCrac, vs[fi]) && (forall|j: int|
                        0 <= j < fi ==> !azul_pass_pred(AzulPass::NoCrac, vs[j])) {
                        lemma_first_where_index(vs, no_crac, fi);
                    } else {
                        lemma_first_where_none(vs, no_crac);
                        lemma_first_where_index(vs, any, fi);
                    }
                }
                assert(azul_selected(vs) == Some(vs[fi]));
                assert(azul_candidate(vs[fi]));
            },
            None => {
                lemma_first_where_none(vs, plain);
                lemma_first_where_none(vs, no_crac);
                lemma_first_where_none(vs, any);
                assert(azul_selected(vs) is None);
            },
        }
    }
    match found {
        None => Err(ResolveError::NoCandidate),
        Some(i) => {
            let p = &pkgs[i];
            proof {
                assert(p@ == vs[i as int]);
            }
            match &p.download_url {
                None => Err(ResolveError::MissingLink),
                Some(url) => {
                    let name = match &p.name {
                        Some(n) => n.clone(),
                        None => String::new(),
                    };
                    let version = match &p.java_version {
                        Some(v) => v.clone(),
                        None => String::from_str(requested_version),
                    };
                    if url.as_str().unicode_len() == 0 {
                        Err(ResolveError::MissingLink)
                    } else {
                        Ok(
                            ResolvedTarget {
                                download_url: url.clone(),
                                archive_name: name,
                                kind: ArchiveKind::Zip,
                                resolved_version: version,
                            },
                        )
                    }
                },
            }
        },
    }
}

/// Resolves the Azul strategy from the fetched metadata response.
pub fn resolve_azul(body: &str, requested_version: &str) -> (r: Result<
    ResolvedTarget,
    ResolveError,
>)
    ensures
        match azul_packages_of(body@) {
            Some(ps) => target_result_view(r) == azul_resolution(ps, requested_version@),
            None => target_result_view(r) == Err::<TargetView, ResolveError>(
                ResolveError::BadStructure,
            ),
        },
        r is Ok ==> r->Ok_0.download_url@.len() > 0,
{
    match parse_azul_packages(body) {
        Some(ps) => resolve_azul_from(&ps, requested_version),
        None => Err(ResolveError::BadStructure),
    }
}

/// One asset from the Adoptium metadata response: the package's file name
/// and download link.
pub struct TemurinAsset {
    pub name: String,
    pub link: String,
}

impl View for TemurinAsset {
    type V = (Seq<char>, Seq<char>);

    open spec fn view(&self) -> Self::V {
        (self.name@, self.link@)
    }
}

/// What the Adoptium metadata response holds: each asset's package name and
/// link, or nothing when the body does not have the expected shape.  The
/// value depends on the body alone.
pub uninterp spec fn temurin_assets_of(body: Seq<char>) -> Option<Seq<(Seq<char>, Seq<char>)>>;

/// Relies on serde_json::from_str and serde_json::Value's accessors: parses
/// the Adoptium metadata response and copies each array element's
/// binary.package.name and binary.package.link out; `None` when the body or
/// any element does not have that shape.
#[verifier::external_body]
pub(crate) fn parse_temurin_assets(body: &str) -> (r: Option<Vec<TemurinAsset>>)
    ensures
        match r {
            Some(assets) => temurin_assets_of(body@) == Some(
                assets@.map_values(|a: TemurinAsset| a@),
            ),
            None => temurin_assets_of(body@) is None,
        },
{
    let v: serde_json::Value = serde_json::from_str(body).ok()?;
    let mut out = Vec::new();
    for a in v.as_array()? {
        let p = a.get("binary")?.get("package")?;
        out.push(
            TemurinAsset {
                name: p.get("name")?.as_str()?.to_string(),
                link: p.get("link")?.as_str()?.to_string(),
            },
        );
    }
    Some(out)
}

/// What Temurin resolution returns for a parsed asset list: the first
/// asset's link and name, the archive kind its name announces, and the
/// requested version.
pub open spec fn temurin_resolution(assets: Seq<(Seq<char>, Seq<char>)>, requested: Seq<char>) -> Result<
    TargetView,
    ResolveError,
> {
    if assets.len() == 0 {
        Err(ResolveError::NoCandidate)
    } else if assets[0].1.len() == 0 {
        Err(ResolveError::MissingLink)
    } else {
        Ok(
            TargetView {
                url: assets[0].1,
                name: assets[0].0,
                kind: kind_for_name(assets[0].0),
                version: requested,
            },
        )
    }
}

/// Resolves the Temurin strategy over a parsed asset list, as
/// `temurin_resolution` describes.
pub fn resolve_temurin_from(assets: &Vec<TemurinAsset>, requested_version: &str) -> (r: Result<
    ResolvedTarget,
    ResolveError,
>)
    ensures
        target_result_view(r) == temurin_resolution(
            assets@.map_values(|a: TemurinAsset| a@),
            requested_version@,
        ),
        r is Ok ==> r->Ok_0.download_url@.len() > 0,
{
    if assets.len() == 0 {
        return Err(ResolveError::NoCandidate);
    }
    let a = &assets[0];
    if a.link.as_str().unicode_len() == 0 {
        return Err(ResolveError::MissingLink);
    }
    let kind = kind_for_archive_name(a.name.as_str());
    Ok(
        ResolvedTarget {
            download_url: a.link.clone(),
            archive_name: a.name.clone(),
            kind,
            resolved_version: String::from_str(requested_version),
        },
    )
}

/// Resolves the Temurin strategy from the fetched metadata response.
pub fn resolve_temurin(body: &str, requested_version: &str) -> (r: Result<
    ResolvedTarget,
    ResolveError,
>)
    ensures
        match temurin_assets_of(body@) {
            Some(assets) => target_result_view(r) == temurin_resolution(
                assets,
                requested_version@,
            ),
            None => target_result_view(r) == Err::<TargetView, ResolveError>(
                ResolveError::BadStructure,
            ),
        },
        r is Ok ==> r->Ok_0.download_url@.len() > 0,
{
    match parse_temurin_assets(body) {
        Some(assets) => resolve_temurin_from(&assets, requested_version),
        None => Err(ResolveError::BadStructure),
    }
}

} // verus!
