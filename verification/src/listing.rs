//! Resolution strategies that read a vendor's listing page.
//!
//! OpenJDK, the python.org release listing, the Node.js LTS directory and
//! the go.dev downloads page are all HTML; what each strategy needs from a
//! page is the `href` of every element a selector matches, or the text of
//! those elements.  The scraping itself is scraper's; every selection from
//! the scraped lists is decided and verified here.

use vstd::prelude::*;
use vstd::string::*;

use crate::platform::{Os, go_arch, go_arch_of, node_arch, node_arch_of};
use crate::resolve::{ArchiveKind, ResolveError, ResolvedTarget, TargetView, target_result_view};
use crate::text::{
    Sep, contains_sub, first_where, has_prefix, has_sub, has_suffix, lemma_first_where_index,
    lemma_first_where_none, lemma_split_nonempty, split_of, split_str, strip_all_prefix,
    strip_all_prefix_of, strip_all_suffix, strip_all_suffix_of, strip_prefix, strip_prefix_of,
    strip_suffix, strip_suffix_of, tokens, tokens_of,
};

verus! {

/// The `href` attribute of each element the selector matches in the
/// document, in document order, `None` for an element without one; or
/// nothing, when the selector text cannot be parsed.  The value depends on
/// the document and selector alone.
pub uninterp spec fn hrefs_in(html: Seq<char>, selector: Seq<char>) -> Option<
    Seq<Option<Seq<char>>>,
>;

/// Relies on scraper's Selector::parse, Html::parse_document and
/// ElementRef::attr: collects the `href` attribute of every element the
/// selector matches, in document order; `None` when the selector text does
/// not parse.
#[verifier::external_body]
pub(crate) fn collect_hrefs(html: &str, selector: &str) -> (r: Option<Vec<Option<String>>>)
    ensures
        match r {
            Some(hs) => hrefs_in(html@, selector@) == Some(hs.deep_view()),
            None => hrefs_in(html@, selector@) is None,
        },
{
    let sel = match scraper::Selector::parse(selector) {
        Ok(s) => s,
        Err(_) => return None,
    };
    let doc = scraper::Html::parse_document(html);
    Some(doc.select(&sel).map(|el| el.attr("href").map(str::to_string)).collect())
}

/// The text of each element the selector matches in the document, in
/// document order; or nothing, when the selector text cannot be parsed.
/// The value depends on the document and selector alone.
pub uninterp spec fn texts_in(html: Seq<char>, selector: Seq<char>) -> Option<Seq<Seq<char>>>;

/// Relies on scraper's Selector::parse, Html::parse_document and
/// ElementRef::text: collects the concatenated text of every element the
/// selector matches, in document order; `None` when the selector text does
/// not parse.
#[verifier::external_body]
pub(crate) fn collect_texts(html: &str, selector: &str) -> (r: Option<Vec<String>>)
    ensures
        match r {
            Some(ts) => texts_in(html@, selector@) == Some(ts.deep_view()),
            None => texts_in(html@, selector@) is None,
        },
{
    let sel = match scraper::Selector::parse(selector) {
        Ok(s) => s,
        Err(_) => return None,
    };
    let doc = scraper::Html::parse_document(html);
    Some(doc.select(&sel).map(|el| el.text().collect::<String>()).collect())
}

/// The links that are present: elements without an `href` dropped.
pub open spec fn present_hrefs(hs: Seq<Option<Seq<char>>>) -> Seq<Seq<char>> {
    hs.filter(|h: Option<Seq<char>>| h is Some).map_values(|h: Option<Seq<char>>| h->Some_0)
}

/// Drops the elements without an `href`.
fn present(hs: &Vec<Option<String>>) -> (r: Vec<String>)
    ensures
        r.deep_view() == present_hrefs(hs.deep_view()),
{
    let ghost dv = hs.deep_view();
    let mut out: Vec<String> = Vec::new();
    let mut i: usize = 0;
    proof {
        reveal(Seq::filter);
        assert(dv.take(0) =~= Seq::<Option<Seq<char>>>::empty());
        assert(out.deep_view() =~= present_hrefs(dv.take(0)));
    }
    while i < hs.len()
        invariant
            dv == hs.deep_view(),
            i <= hs.len(),
            out.deep_view() =~= present_hrefs(dv.take(i as int)),
        decreases hs.len() - i,
    {
        let ghost old_dv = out.deep_view();
        proof {
            reveal(Seq::filter);
            assert(dv.take(i + 1).drop_last() =~= dv.take(i as int));
            assert(dv.take(i + 1).last() == dv[i as int]);
        }
        match &hs[i] {
            Some(h) => {
                out.push(h.clone());
                proof {
                    let fpred = |x: Option<Seq<char>>| x is Some;
                    let fmap = |x: Option<Seq<char>>| x->Some_0;
                    assert(dv.take(i + 1).filter(fpred) =~= dv.take(i as int).filter(fpred).push(
                        dv[i as int],
                    ));
                    assert(dv.take(i as int).filter(fpred).push(dv[i as int]).map_values(fmap)
                        =~= dv.take(i as int).filter(fpred).map_values(fmap).push(
                        dv[i as int]->Some_0,
                    ));
                    assert(out.deep_view() =~= old_dv.push(dv[i as int]->Some_0));
                    assert(out.deep_view() =~= present_hrefs(dv.take(i + 1)));
                }
            },
            None => {
                proof {
                    let fpred = |x: Option<Seq<char>>| x is Some;
                    assert(dv.take(i + 1).filter(fpred) =~= dv.take(i as int).filter(fpred));
                    assert(out.deep_view() =~= present_hrefs(dv.take(i + 1)));
                }
            },
        }
        i += 1;
    }
    proof {
        assert(dv.take(hs.len() as int) =~= dv);
    }
    out
}

/// The last `/`-separated segment of a path or URL.
pub open spec fn last_segment_of(s: Seq<char>) -> Seq<char> {
    split_of(Sep::Slash, s).last()
}

/// Takes the last `/`-separated segment of a path or URL.
pub fn last_segment(s: &str) -> (r: String)
    ensures
        r@ == last_segment_of(s@),
{
    let parts = split_str(Sep::Slash, s);
    proof {
        lemma_split_nonempty(Sep::Slash, s@);
    }
    let r = parts[parts.len() - 1].clone();
    proof {
        assert(r@ == split_of(Sep::Slash, s@).last());
    }
    r
}

/// What OpenJDK resolution returns for the links of its release page: the
/// first zip link for this system, named after the link's file name.
pub open spec fn openjdk_resolution(
    hrefs: Seq<Option<Seq<char>>>,
    os: Os,
    version: Seq<char>,
) -> Result<TargetView, ResolveError> {
    match first_where(
        present_hrefs(hrefs),
        |h: Seq<char>| has_sub(h, os.spec_name()) && ".zip"@.is_suffix_of(h),
    ) {
        None => Err(ResolveError::NoCandidate),
        Some(h) => Ok(
            TargetView {
                url: h,
                name: strip_suffix_of(last_segment_of(h), ".zip"@),
                kind: ArchiveKind::Zip,
                version,
            },
        ),
    }
}

/// Picks the OpenJDK download from the release page's links, as
/// `openjdk_resolution` describes.
pub fn openjdk_pick(hrefs: &Vec<Option<String>>, os: Os, version: &str) -> (r: Result<
    ResolvedTarget,
    ResolveError,
>)
    ensures
        target_result_view(r) == openjdk_resolution(hrefs.deep_view(), os, version@),
        r is Ok ==> r->Ok_0.download_url@.len() > 0,
{
    let links = present(hrefs);
    let ghost ls = links.deep_view();
    let mut i: usize = 0;
    while i < links.len()
        invariant
            ls == links.deep_view(),
            ls == present_hrefs(hrefs.deep_view()),
            i <= links.len(),
            forall|j: int|
                0 <= j < i ==> !(has_sub(ls[j], os.spec_name()) && ".zip"@.is_suffix_of(ls[j])),
        decreases links.len() - i,
    {
        let h = links[i].as_str();
        if contains_sub(h, os.name()) && has_suffix(h, ".zip") {
            proof {
                lemma_first_where_index(
                    ls,
                    |h: Seq<char>| has_sub(h, os.spec_name()) && ".zip"@.is_suffix_of(h),
                    i as int,
                );
                reveal_strlit(".zip");
            }
            let name = strip_suffix(last_segment(h).as_str(), ".zip");
            return Ok(
                ResolvedTarget {
                    download_url: String::from_str(h),
                    archive_name: name,
                    kind: ArchiveKind::Zip,
                    resolved_version: String::from_str(version),
                },
            );
        }
        i += 1;
    }
    proof {
        lemma_first_where_none(
            ls,
            |h: Seq<char>| has_sub(h, os.spec_name()) && ".zip"@.is_suffix_of(h),
        );
    }
    Err(ResolveError::NoCandidate)
}

/// Resolves the OpenJDK strategy from the fetched release page.
pub fn resolve_openjdk(body: &str, os: Os, version: &str) -> (r: Result<
    ResolvedTarget,
    ResolveError,
>)
    ensures
        match hrefs_in(body@, "a"@) {
            Some(hs) => target_result_view(r) == openjdk_resolution(hs, os, version@),
            None => target_result_view(r) == Err::<TargetView, ResolveError>(
                ResolveError::BadStructure,
            ),
        },
        r is Ok ==> r->Ok_0.download_url@.len() > 0,
{
    match collect_hrefs(body, "a") {
        Some(hs) => openjdk_pick(&hs, os, version),
        None => Err(ResolveError::BadStructure),
    }
}

/// The version a python.org artifact file name encodes: the name without
/// its `Python-`/`python-` prefix and its archive suffixes.
pub open spec fn python_filename_version(f: Seq<char>) -> Option<Seq<char>> {
    if has_sub(f, "Python-"@) {
        Some(
            strip_suffix_of(
                strip_suffix_of(strip_suffix_of(strip_prefix_of(f, "Python-"@), ".tgz"@), ".zip"@),
                "-embed-amd64"@,
            ),
        )
    } else if has_sub(f, "python-"@) {
        Some(strip_suffix_of(strip_prefix_of(f, "python-"@), "-embed-amd64.zip"@))
    } else {
        None
    }
}

/// The latest stable version the python.org download listing names: taken
/// from the file name of the first matched release link.
pub open spec fn python_latest_resolution(hrefs: Seq<Option<Seq<char>>>) -> Result<
    Seq<char>,
    ResolveError,
> {
    if hrefs.len() == 0 {
        Err(ResolveError::NoCandidate)
    } else {
        match hrefs[0] {
            None => Err(ResolveError::NoCandidate),
            Some(h) => match python_filename_version(last_segment_of(h)) {
                Some(v) => Ok(v),
                None => Err(ResolveError::NoCandidate),
            },
        }
    }
}

/// The selector for the current-OS release link on python.org's download
/// listing.
pub open spec fn python_selector() -> Seq<char> {
    ".download-for-current-os .release-download-v3"@
}

/// Finds the latest stable Python version on the fetched python.org
/// download listing, as `python_latest_resolution` describes.
pub fn python_latest_version(body: &str) -> (r: Result<String, ResolveError>)
    ensures
        match hrefs_in(body@, python_selector()) {
            Some(hs) => match r {
                Ok(v) => python_latest_resolution(hs) == Ok::<Seq<char>, ResolveError>(v@),
                Err(e) => python_latest_resolution(hs) == Err::<Seq<char>, ResolveError>(e),
            },
            None => r == Err::<String, ResolveError>(ResolveError::BadStructure),
        },
{
    let hs = match collect_hrefs(body, ".download-for-current-os .release-download-v3") {
        Some(hs) => hs,
        None => {
            return Err(ResolveError::BadStructure);
        },
    };
    if hs.len() == 0 {
        return Err(ResolveError::NoCandidate);
    }
    match &hs[0] {
        None => Err(ResolveError::NoCandidate),
        Some(h) => {
            let f = last_segment(h.as_str());
            if contains_sub(f.as_str(), "Python-") {
                let v = strip_suffix(
                    strip_suffix(
                        strip_suffix(strip_prefix(f.as_str(), "Python-").as_str(), ".tgz").as_str(),
                        ".zip",
                    ).as_str(),
                    "-embed-amd64",
                );
                Ok(v)
            } else if contains_sub(f.as_str(), "python-") {
                let v = strip_suffix(strip_prefix(f.as_str(), "python-").as_str(), "-embed-amd64.zip");
                Ok(v)
            } else {
                Err(ResolveError::NoCandidate)
            }
        },
    }
}

/// A link that names a Node.js LTS release directory.
pub open spec fn node_dir_pred(h: Seq<char>) -> bool {
    "v"@.is_prefix_of(h) && "/"@.is_suffix_of(h) && has_sub(h, "lts"@)
}

/// The LTS release directories a Node.js listing links to, in order.
pub open spec fn node_lts_dirs_of(hrefs: Seq<Option<Seq<char>>>) -> Seq<Seq<char>> {
    present_hrefs(hrefs).filter(|h: Seq<char>| node_dir_pred(h))
}

/// Collects the LTS release directories from the fetched Node.js listing.
pub fn node_lts_dirs(body: &str) -> (r: Result<Vec<String>, ResolveError>)
    ensures
        match hrefs_in(body@, "a"@) {
            Some(hs) => r is Ok && r->Ok_0.deep_view() == node_lts_dirs_of(hs),
            None => r == Err::<Vec<String>, ResolveError>(ResolveError::BadStructure),
        },
{
    let hs = match collect_hrefs(body, "a") {
        Some(hs) => hs,
        None => {
            return Err(ResolveError::BadStructure);
        },
    };
    let links = present(&hs);
    let ghost ls = links.deep_view();
    let mut out: Vec<String> = Vec::new();
    let mut i: usize = 0;
    proof {
        reveal(Seq::filter);
        assert(ls.take(0) =~= Seq::<Seq<char>>::empty());
        assert(out.deep_view() =~= ls.take(0).filter(|h: Seq<char>| node_dir_pred(h)));
    }
    while i < links.len()
        invariant
            ls == links.deep_view(),
            ls == present_hrefs(hs.deep_view()),
            i <= links.len(),
            out.deep_view() =~= ls.take(i as int).filter(|h: Seq<char>| node_dir_pred(h)),
        decreases links.len() - i,
    {
        let h = links[i].as_str();
        proof {
            reveal(Seq::filter);
            assert(ls.take(i + 1).drop_last() =~= ls.take(i as int));
            assert(ls.take(i + 1).last() == ls[i as int]);
        }
        if has_prefix(h, "v") && has_suffix(h, "/") && contains_sub(h, "lts") {
            out.push(String::from_str(h));
        }
        proof {
            assert(out.deep_view() =~= ls.take(i + 1).filter(|u: Seq<char>| node_dir_pred(u)));
        }
        i += 1;
    }
    proof {
        assert(ls.take(links.len() as int) =~= ls);
    }
    Ok(out)
}

/// A link that names the Node.js artifact for this system: it mentions the
/// platform pair and carries the right archive suffix.
pub open spec fn node_file_pred(os: Os, arch: Seq<char>, h: Seq<char>) -> bool {
    has_sub(h, os.spec_name() + "-"@ + node_arch_of(arch)) && (if os == Os::Windows {
        ".zip"@.is_suffix_of(h)
    } else {
        ".tar.gz"@.is_suffix_of(h) || ".tar.xz"@.is_suffix_of(h)
    })
}

/// The artifact link a Node.js release directory listing offers for this
/// system, if any.
pub open spec fn node_file_pick(hrefs: Seq<Option<Seq<char>>>, os: Os, arch: Seq<char>) -> Option<
    Seq<char>,
> {
    first_where(present_hrefs(hrefs), |h: Seq<char>| node_file_pred(os, arch, h))
}

/// Picks this system's artifact from a fetched Node.js release directory
/// listing, as `node_file_pick` describes.
pub fn node_pick_file(body: &str, os: Os, arch: &str) -> (r: Result<Option<String>, ResolveError>)
    ensures
        match hrefs_in(body@, "a"@) {
            Some(hs) => r is Ok && r->Ok_0.deep_view() == node_file_pick(hs, os, arch@),
            None => r == Err::<Option<String>, ResolveError>(ResolveError::BadStructure),
        },
{
    let hs = match collect_hrefs(body, "a") {
        Some(hs) => hs,
        None => {
            return Err(ResolveError::BadStructure);
        },
    };
    let mut part = String::from_str(os.name());
    part.append("-");
    let na = node_arch(arch);
    part.append(na.as_str());
    let windows = matches!(os, Os::Windows);
    let links = present(&hs);
    let ghost ls = links.deep_view();
    let mut i: usize = 0;
    while i < links.len()
        invariant
            ls == links.deep_view(),
            ls == present_hrefs(hs.deep_view()),
            hrefs_in(body@, "a"@) == Some(hs.deep_view()),
            part@ == os.spec_name() + "-"@ + node_arch_of(arch@),
            windows == (os == Os::Windows),
            i <= links.len(),
            forall|j: int| 0 <= j < i ==> !node_file_pred(os, arch@, ls[j]),
        decreases links.len() - i,
    {
        let h = links[i].as_str();
        let suffix_ok = if windows {
            has_suffix(h, ".zip")
        } else {
            has_suffix(h, ".tar.gz") || has_suffix(h, ".tar.xz")
        };
        if contains_sub(h, part.as_str()) && suffix_ok {
            proof {
                lemma_first_where_index(ls, |h: Seq<char>| node_file_pred(os, arch@, h), i as int);
            }
            return Ok(Some(String::from_str(h)));
        }
        i += 1;
    }
    proof {
        lemma_first_where_none(ls, |h: Seq<char>| node_file_pred(os, arch@, h));
    }
    Ok(None)
}

/// The Node.js LTS listing this installer reads.
pub open spec fn node_base_url() -> Seq<char> {
    "https://nodejs.org/dist/latest-lts/"@
}

/// The target a chosen Node.js directory link and artifact link resolve to:
/// the artifact's URL under the LTS listing, named after its file name, at
/// the version the directory link encodes.
pub open spec fn node_target_view(dir: Seq<char>, file: Seq<char>) -> TargetView {
    TargetView {
        url: node_base_url() + dir + file,
        name: last_segment_of(file),
        kind: crate::resolve::kind_for_name(file),
        version: strip_all_suffix_of(strip_all_prefix_of(dir, "v"@), "/"@),
    }
}

/// Assembles the resolved target for a chosen Node.js directory and
/// artifact link.
pub fn node_target(dir: &str, file: &str) -> (r: ResolvedTarget)
    ensures
        r@ == node_target_view(dir@, file@),
        r.download_url@.len() > 0,
{
    let mut url = String::from_str("https://nodejs.org/dist/latest-lts/");
    url.append(dir);
    url.append(file);
    let name = last_segment(file);
    let kind = crate::resolve::kind_for_archive_name(file);
    let stripped = strip_all_prefix(dir, "v");
    let version = strip_all_suffix(stripped.as_str(), "/");
    proof {
        reveal_strlit("https://nodejs.org/dist/latest-lts/");
    }
    ResolvedTarget { download_url: url, archive_name: name, kind, resolved_version: version }
}

/// The first toggle text that marks the latest Go version.
pub open spec fn go_latest_text(texts: Seq<Seq<char>>) -> Option<Seq<char>>
    decreases texts.len(),
{
    if texts.len() == 0 {
        None
    } else if has_sub(texts[0], "(latest)"@) {
        Some(texts[0])
    } else {
        go_latest_text(texts.skip(1))
    }
}

/// The latest Go version the downloads page names: the first token of the
/// toggle marked `(latest)`.
pub open spec fn go_latest_of(texts: Seq<Seq<char>>) -> Option<Seq<char>> {
    match go_latest_text(texts) {
        Some(t) => if tokens_of(t).len() > 0 {
            Some(tokens_of(t)[0])
        } else {
            None
        },
        None => None,
    }
}

/// The first link containing both `a` and `b`.
pub open spec fn first_link_with(hs: Seq<Seq<char>>, a: Seq<char>, b: Seq<char>) -> Option<
    Seq<char>,
>
    decreases hs.len(),
{
    if hs.len() == 0 {
        None
    } else if has_sub(hs[0], a) && has_sub(hs[0], b) {
        Some(hs[0])
    } else {
        first_link_with(hs.skip(1), a, b)
    }
}

/// The platform fragment a Go download link must carry.
pub open spec fn go_link_part(os: Os, goarch: Seq<char>) -> Seq<char> {
    os.spec_name() + "-"@ + goarch + (if os == Os::Windows {
        ".zip"@
    } else {
        ".tar.gz"@
    })
}

/// What Go resolution returns for the downloads page's toggle texts and
/// links: the first download-table link carrying the latest version and
/// this platform's fragment.
pub open spec fn go_resolution(
    texts: Seq<Seq<char>>,
    hrefs: Seq<Option<Seq<char>>>,
    os: Os,
    arch: Seq<char>,
) -> Result<TargetView, ResolveError> {
    match go_latest_of(texts) {
        None => Err(ResolveError::NoCandidate),
        Some(v) => match crate::platform::go_arch_of(arch) {
            None => Err(ResolveError::UnsupportedPlatform),
            Some(ga) => match first_link_with(present_hrefs(hrefs), v, go_link_part(os, ga)) {
                None => Err(ResolveError::NoCandidate),
                Some(h) => Ok(
                    TargetView {
                        url: "https://go.dev"@ + h,
                        name: last_segment_of(h),
                        kind: if os == Os::Windows {
                            ArchiveKind::Zip
                        } else {
                            ArchiveKind::TarGz
                        },
                        version: strip_all_prefix_of(
                            split_of(Sep::Dot, last_segment_of(h))[0],
                            "go"@,
                        ),
                    },
                ),
            },
        },
    }
}

/// Finds the latest Go version among the toggle texts, as `go_latest_of`
/// describes.
fn go_find_latest(texts: &Vec<String>) -> (r: Option<String>)
    ensures
        r.deep_view() == go_latest_of(texts.deep_view()),
{
    let ghost tv = texts.deep_view();
    let mut i: usize = 0;
    proof {
        assert(tv.skip(0) =~= tv);
    }
    while i < texts.len()
        invariant
            tv == texts.deep_view(),
            i <= texts.len(),
            go_latest_text(tv) == go_latest_text(tv.skip(i as int)),
        decreases texts.len() - i,
    {
        proof {
            assert(tv.skip(i as int)[0] == tv[i as int]);
            assert(tv.skip(i as int).skip(1) =~= tv.skip(i + 1));
        }
        let t = texts[i].as_str();
        if contains_sub(t, "(latest)") {
            proof {
                assert(go_latest_text(tv) == Some(tv[i as int]));
            }
            let toks = tokens(t);
            if toks.len() > 0 {
                let v = toks[0].clone();
                proof {
                    assert(v@ == tokens_of(tv[i as int])[0]);
                }
                return Some(v);
            } else {
                return None;
            }
        }
        i += 1;
    }
    proof {
        assert(tv.skip(texts.len() as int) =~= Seq::<Seq<char>>::empty());
    }
    None
}

/// Resolves the Go strategy over the downloads page's toggle texts and
/// links, as `go_resolution` describes.
pub fn resolve_go_from(
    texts: &Vec<String>,
    hrefs: &Vec<Option<String>>,
    os: Os,
    arch: &str,
) -> (r: Result<ResolvedTarget, ResolveError>)
    ensures
        target_result_view(r) == go_resolution(texts.deep_view(), hrefs.deep_view(), os, arch@),
        r is Ok ==> r->Ok_0.download_url@.len() > 0,
{
    let v = match go_find_latest(texts) {
        Some(v) => v,
        None => {
            return Err(ResolveError::NoCandidate);
        },
    };
    let ga = match go_arch(arch) {
        Some(ga) => ga,
        None => {
            return Err(ResolveError::UnsupportedPlatform);
        },
    };
    let mut part = String::from_str(os.name());
    part.append("-");
    part.append(ga.as_str());
    if matches!(os, Os::Windows) {
        part.append(".zip");
    } else {
        part.append(".tar.gz");
    }
    let links = present(hrefs);
    let ghost ls = links.deep_view();
    let mut k: usize = 0;
    proof {
        assert(ls.skip(0) =~= ls);
    }
    while k < links.len()
        invariant
            ls == links.deep_view(),
            ls == present_hrefs(hrefs.deep_view()),
            k <= links.len(),
            go_latest_of(texts.deep_view()) == Some(v@),
            part@ == go_link_part(os, go_arch_of(arch@)->Some_0),
            go_arch_of(arch@) is Some,
            first_link_with(ls, v@, part@) == first_link_with(ls.skip(k as int), v@, part@),
        decreases links.len() - k,
    {
        proof {
            assert(ls.skip(k as int)[0] == ls[k as int]);
            assert(ls.skip(k as int).skip(1) =~= ls.skip(k + 1));
        }
        let h = links[k].as_str();
        if contains_sub(h, v.as_str()) && contains_sub(h, part.as_str()) {
            proof {
                assert(first_link_with(ls, v@, part@) == Some(ls[k as int]));
            }
            let mut url = String::from_str("https://go.dev");
            url.append(h);
            let name = last_segment(h);
            let segs = split_str(Sep::Dot, name.as_str());
            proof {
                lemma_split_nonempty(Sep::Dot, name@);
            }
            let version = strip_all_prefix(segs[0].as_str(), "go");
            let kind = if matches!(os, Os::Windows) {
                ArchiveKind::Zip
            } else {
                ArchiveKind::TarGz
            };
            proof {
                reveal_strlit("https://go.dev");
                assert(version@ == strip_all_prefix_of(
                    split_of(Sep::Dot, last_segment_of(ls[k as int]))[0],
                    "go"@,
                ));
            }
            return Ok(
                ResolvedTarget {
                    download_url: url,
                    archive_name: name,
                    kind,
                    resolved_version: version,
                },
            );
        }
        k += 1;
    }
    proof {
        assert(ls.skip(links.len() as int) =~= Seq::<Seq<char>>::empty());
    }
    Err(ResolveError::NoCandidate)
}

/// The go.dev downloads page and its two selectors.
pub open spec fn go_downloads_url() -> Seq<char> {
    "https://go.dev/dl/"@
}

/// Resolves the Go strategy from the fetched downloads page.
pub fn resolve_go(body: &str, os: Os, arch: &str) -> (r: Result<ResolvedTarget, ResolveError>)
    ensures
        match (texts_in(body@, ".toggleButton"@), hrefs_in(body@, ".downloadTable a"@)) {
            (Some(ts), Some(hs)) => target_result_view(r) == go_resolution(ts, hs, os, arch@),
            _ => r == Err::<ResolvedTarget, ResolveError>(ResolveError::BadStructure),
        },
        r is Ok ==> r->Ok_0.download_url@.len() > 0,
{
    let ts = match collect_texts(body, ".toggleButton") {
        Some(ts) => ts,
        None => {
            return Err(ResolveError::BadStructure);
        },
    };
    let hs = match collect_hrefs(body, ".downloadTable a") {
        Some(hs) => hs,
        None => {
            return Err(ResolveError::BadStructure);
        },
    };
    resolve_go_from(&ts, &hs, os, arch)
}

} // verus!
