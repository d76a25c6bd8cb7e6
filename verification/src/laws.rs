//! Crate-wide laws.
//!
//! Properties that span several strategies are stated and proved here, so
//! a reader sees them written down rather than implied.

use vstd::prelude::*;

use crate::compat::compatible;
use crate::listing::{go_resolution, node_target_view, openjdk_resolution, present_hrefs};
use crate::orchestrate::Orchestrator;
use crate::platform::Os;
use crate::probe::version_output_of;
use crate::resolve::{
    ResolvedTarget, azul_resolution, c_cpp_url, python_target_view, rust_url_of,
    temurin_resolution,
};
use crate::text::{has_sub, lemma_first_where_props};

verus! {

/// Every resolution any strategy can succeed with carries a non-empty
/// download URL: whatever listing, metadata or platform a strategy is
/// given, it either selects a target whose URL has at least one character
/// or returns a typed error — never a silently empty URL.
pub proof fn lemma_resolved_urls_nonempty(
    ps: Seq<(Option<Seq<char>>, Option<Seq<char>>, Option<Seq<char>>)>,
    assets: Seq<(Seq<char>, Seq<char>)>,
    hrefs: Seq<Option<Seq<char>>>,
    texts: Seq<Seq<char>>,
    os: Os,
    arch: Seq<char>,
    version: Seq<char>,
    dir: Seq<char>,
    file: Seq<char>,
)
    ensures
        azul_resolution(ps, version) matches Ok(t) ==> t.url.len() > 0,
        temurin_resolution(assets, version) matches Ok(t) ==> t.url.len() > 0,
        openjdk_resolution(hrefs, os, version) matches Ok(t) ==> t.url.len() > 0,
        go_resolution(texts, hrefs, os, arch) matches Ok(t) ==> t.url.len() > 0,
        python_target_view(version, os).url.len() > 0,
        node_target_view(dir, file).url.len() > 0,
        rust_url_of(os).len() > 0,
        c_cpp_url().len() > 0,
{
    reveal_strlit(".zip");
    reveal_strlit("https://www.python.org/ftp/python/");
    reveal_strlit("https://nodejs.org/dist/latest-lts/");
    reveal_strlit("https://go.dev");
    reveal_strlit("https://win.rustup.rs/x86_64");
    reveal_strlit("https://sh.rustup.rs");
    reveal_strlit(
        "https://sourceforge.net/projects/mingw-w64/files/mingw-w64/mingw-w64-release/mingw-w64-v11.0.0.zip/download",
    );
    lemma_first_where_props(
        present_hrefs(hrefs),
        |h: Seq<char>| has_sub(h, os.spec_name()) && ".zip"@.is_suffix_of(h),
    );
}

/// Installing the same explicit version twice short-circuits the second
/// run: whatever version-query output the first run's verification
/// accepted against the request, the same output is compatible with the
/// second run's target — for an explicit version both runs judge against
/// the requested text — and `Orchestrator::on_probed`'s contract then ends
/// the second run successfully, with no download action and full progress.
/// That the probe still reports that output is the premise "no external
/// change between the runs", which only the file system can keep.
pub proof fn lemma_install_twice_short_circuits(
    o: Orchestrator,
    t: ResolvedTarget,
    stdout: Seq<char>,
    stderr: Seq<char>,
)
    requires
        !o.install_latest,
        compatible(version_output_of(o.vendor, stdout, stderr), o.requested_version@),
    ensures
        compatible(version_output_of(o.vendor, stdout, stderr), o.check_version_of(t)),
{
}

} // verus!
