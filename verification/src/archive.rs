//! Archive extraction planning.
//!
//! A downloaded artifact is a zip or a (gzip- or xz-compressed) tar held in
//! memory.  The codecs list the entries; everything decided about them —
//! which paths are created, whether a single top-level directory wraps the
//! whole payload, how that wrapper is flattened away, and how far along
//! extraction is — is verified here.  Writing the entries to disk is the
//! caller's work, one entry per step so cancellation is observed between
//! entries.

use vstd::prelude::*;
use vstd::string::*;

use crate::resolve::ArchiveKind;
use crate::text::{
    Sep, first_where, has_prefix, has_suffix, split_of, split_str, strip_prefix,
};

verus! {

/// One entry of an archive: its path inside the archive and whether it is
/// a directory.
pub struct ArchiveEntry {
    pub path: String,
    pub is_dir: bool,
}

impl View for ArchiveEntry {
    type V = (Seq<char>, bool);

    open spec fn view(&self) -> Self::V {
        (self.path@, self.is_dir)
    }
}

/// Why extraction failed.
#[derive(Clone, Copy, PartialEq, Eq, Debug, Structural)]
pub enum ExtractError {
    /// The artifact name announces no supported archive form.
    UnsupportedFormat,
    /// The bytes do not parse as the announced archive form.
    BadArchive,
    /// Writing an entry or moving the wrapper's contents failed.
    Io,
    /// The user requested a stop between entries.
    Cancelled,
}

/// The entries of a zip archive, in index order, each with its path and
/// whether it is a directory; or nothing when the bytes are not a zip
/// archive.  The value depends on the bytes alone.
pub uninterp spec fn zip_entries_of(data: Seq<u8>) -> Option<Seq<(Seq<char>, bool)>>;

/// Relies on zip::ZipArchive::new, len and by_index: lists each entry's
/// name and kind in index order; `None` when the bytes do not parse as a
/// zip archive.
#[verifier::external_body]
pub(crate) fn list_zip_entries(data: &Vec<u8>) -> (r: Option<Vec<ArchiveEntry>>)
    ensures
        match r {
            Some(es) => zip_entries_of(data@) == Some(es@.map_values(|e: ArchiveEntry| e@)),
            None => zip_entries_of(data@) is None,
        },
{
    let mut ar = zip::ZipArchive::new(std::io::Cursor::new(data.as_slice())).ok()?;
    let mut out = Vec::new();
    for i in 0..ar.len() {
        let f = ar.by_index(i).ok()?;
        out.push(ArchiveEntry { path: f.name().to_string(), is_dir: f.is_dir() });
    }
    Some(out)
}

/// The entries of a gzip-compressed tar archive, in stream order; or
/// nothing when the bytes do not decode.  The value depends on the bytes
/// alone.
pub uninterp spec fn tar_gz_entries_of(data: Seq<u8>) -> Option<Seq<(Seq<char>, bool)>>;

/// Relies on flate2's GzDecoder and tar::Archive::entries: lists each
/// entry's path and kind in stream order; `None` when the bytes do not
/// decode as a gzip-compressed tar archive.
#[verifier::external_body]
pub(crate) fn list_tar_gz_entries(data: &Vec<u8>) -> (r: Option<Vec<ArchiveEntry>>)
    ensures
        match r {
            Some(es) => tar_gz_entries_of(data@) == Some(es@.map_values(|e: ArchiveEntry| e@)),
            None => tar_gz_entries_of(data@) is None,
        },
{
    let mut ar = tar::Archive::new(flate2::read::GzDecoder::new(std::io::Cursor::new(data.as_slice())));
    let mut out = Vec::new();
    for e in ar.entries().ok()? {
        let e = e.ok()?;
        let p = e.path().ok()?.to_string_lossy().into_owned();
        out.push(ArchiveEntry { path: p, is_dir: e.header().entry_type().is_dir() });
    }
    Some(out)
}

/// The entries of an xz-compressed tar archive, in stream order; or
/// nothing when the bytes do not decode.  The value depends on the bytes
/// alone.
pub uninterp spec fn tar_xz_entries_of(data: Seq<u8>) -> Option<Seq<(Seq<char>, bool)>>;

/// Relies on xz2's XzDecoder and tar::Archive::entries: lists each entry's
/// path and kind in stream order; `None` when the bytes do not decode as an
/// xz-compressed tar archive.
#[verifier::external_body]
pub(crate) fn list_tar_xz_entries(data: &Vec<u8>) -> (r: Option<Vec<ArchiveEntry>>)
    ensures
        match r {
            Some(es) => tar_xz_entries_of(data@) == Some(es@.map_values(|e: ArchiveEntry| e@)),
            None => tar_xz_entries_of(data@) is None,
        },
{
    let mut ar = tar::Archive::new(xz2::read::XzDecoder::new(std::io::Cursor::new(data.as_slice())));
    let mut out = Vec::new();
    for e in ar.entries().ok()? {
        let e = e.ok()?;
        let p = e.path().ok()?.to_string_lossy().into_owned();
        out.push(ArchiveEntry { path: p, is_dir: e.header().entry_type().is_dir() });
    }
    Some(out)
}

/// What listing the entries of an artifact must produce, judged by its
/// kind and name: the zip listing for a zip, the tar listing the name's
/// compression suffix selects, and no listing at all for an unsupported
/// suffix or a raw executable.
pub open spec fn entries_listing_of(data: Seq<u8>, kind: ArchiveKind, name: Seq<char>) -> Result<
    Seq<(Seq<char>, bool)>,
    ExtractError,
> {
    match kind {
        ArchiveKind::Zip => match zip_entries_of(data) {
            Some(es) => Ok(es),
            None => Err(ExtractError::BadArchive),
        },
        ArchiveKind::RawExecutable => Err(ExtractError::UnsupportedFormat),
        _ => if ".tgz"@.is_suffix_of(name) || ".tar.gz"@.is_suffix_of(name) {
            match tar_gz_entries_of(data) {
                Some(es) => Ok(es),
                None => Err(ExtractError::BadArchive),
            }
        } else if ".tar.xz"@.is_suffix_of(name) {
            match tar_xz_entries_of(data) {
                Some(es) => Ok(es),
                None => Err(ExtractError::BadArchive),
            }
        } else {
            Err(ExtractError::UnsupportedFormat)
        },
    }
}

/// Lists the entries of a downloaded artifact, as `entries_listing_of`
/// describes.  For a tar the artifact name's suffix selects the
/// decompressor; a name with no supported suffix is rejected here.
pub fn list_archive_entries(data: &Vec<u8>, kind: ArchiveKind, name: &str) -> (r: Result<
    Vec<ArchiveEntry>,
    ExtractError,
>)
    ensures
        match r {
            Ok(es) => entries_listing_of(data@, kind, name@) == Ok::<
                Seq<(Seq<char>, bool)>,
                ExtractError,
            >(es@.map_values(|e: ArchiveEntry| e@)),
            Err(e) => entries_listing_of(data@, kind, name@) == Err::<
                Seq<(Seq<char>, bool)>,
                ExtractError,
            >(e),
        },
{
    match kind {
        ArchiveKind::Zip => match list_zip_entries(data) {
            Some(es) => Ok(es),
            None => Err(ExtractError::BadArchive),
        },
        ArchiveKind::RawExecutable => Err(ExtractError::UnsupportedFormat),
        _ => {
            if has_suffix(name, ".tgz") || has_suffix(name, ".tar.gz") {
                match list_tar_gz_entries(data) {
                    Some(es) => Ok(es),
                    None => Err(ExtractError::BadArchive),
                }
            } else if has_suffix(name, ".tar.xz") {
                match list_tar_xz_entries(data) {
                    Some(es) => Ok(es),
                    None => Err(ExtractError::BadArchive),
                }
            } else {
                Err(ExtractError::UnsupportedFormat)
            }
        },
    }
}

/// The first non-empty `/`-separated component of a path.
pub open spec fn first_component_of(p: Seq<char>) -> Option<Seq<char>> {
    first_where(split_of(Sep::Slash, p), |c: Seq<char>| c.len() != 0)
}

/// Takes the first non-empty `/`-separated component of a path.
pub fn first_component(p: &str) -> (r: Option<String>)
    ensures
        r.deep_view() == first_component_of(p@),
{
    let parts = split_str(Sep::Slash, p);
    let ghost ps = parts.deep_view();
    let mut i: usize = 0;
    proof {
        assert(ps.skip(0) =~= ps);
    }
    while i < parts.len()
        invariant
            ps == parts.deep_view(),
            ps == split_of(Sep::Slash, p@),
            i <= parts.len(),
            first_where(ps, |c: Seq<char>| c.len() != 0) == first_where(
                ps.skip(i as int),
                |c: Seq<char>| c.len() != 0,
            ),
        decreases parts.len() - i,
    {
        proof {
            assert(ps.skip(i as int)[0] == ps[i as int]);
            assert(ps.skip(i as int).skip(1) =~= ps.skip(i + 1));
        }
        let c = parts[i].as_str();
        if c.unicode_len() > 0 {
            return Some(String::from_str(c));
        }
        i += 1;
    }
    proof {
        assert(ps.skip(parts.len() as int) =~= Seq::<Seq<char>>::empty());
    }
    None
}

/// The top-level wrapping directory an entry listing announces: the first
/// component of the first directory entry that has one.
pub open spec fn top_dir_of(entries: Seq<(Seq<char>, bool)>) -> Option<Seq<char>> {
    match first_where(
        entries,
        |e: (Seq<char>, bool)| e.1 && first_component_of(e.0) is Some,
    ) {
        Some(e) => first_component_of(e.0),
        None => None,
    }
}

/// Detects the candidate top-level wrapping directory of an entry listing,
/// as `top_dir_of` describes.
pub fn detect_top_dir(entries: &Vec<ArchiveEntry>) -> (r: Option<String>)
    ensures
        r.deep_view() == top_dir_of(entries@.map_values(|e: ArchiveEntry| e@)),
{
    let ghost es = entries@.map_values(|e: ArchiveEntry| e@);
    let mut i: usize = 0;
    while i < entries.len()
        invariant
            es == entries@.map_values(|e: ArchiveEntry| e@),
            i <= entries.len(),
            forall|j: int|
                0 <= j < i ==> !(es[j].1 && first_component_of(es[j].0) is Some),
        decreases entries.len() - i,
    {
        let e = &entries[i];
        proof {
            assert(e@ == es[i as int]);
        }
        if e.is_dir {
            match first_component(e.path.as_str()) {
                Some(c) => {
                    proof {
                        crate::text::lemma_first_where_index(
                            es,
                            |e: (Seq<char>, bool)| e.1 && first_component_of(e.0) is Some,
                            i as int,
                        );
                    }
                    return Some(c);
                },
                None => {},
            }
        }
        i += 1;
    }
    proof {
        crate::text::lemma_first_where_none(
            es,
            |e: (Seq<char>, bool)| e.1 && first_component_of(e.0) is Some,
        );
    }
    None
}

/// Where a path stands after the wrapper `top` is flattened away: the
/// wrapper itself disappears, a path under it loses the leading
/// `top/`, and any other path is untouched.
pub open spec fn flattened_path_of(p: Seq<char>, top: Seq<char>) -> Option<Seq<char>> {
    if p == top || p == top + "/"@ {
        None
    } else if (top + "/"@).is_prefix_of(p) {
        Some(p.skip(top.len() + 1 as int))
    } else {
        Some(p)
    }
}

/// Computes where a path stands after flattening, as `flattened_path_of`
/// describes.
pub fn flattened_path(p: &str, top: &str) -> (r: Option<String>)
    ensures
        r.deep_view() == flattened_path_of(p@, top@),
{
    let mut top_slash = String::from_str(top);
    top_slash.append("/");
    if crate::text::str_eq(p, top) || crate::text::str_eq(p, top_slash.as_str()) {
        None
    } else if has_prefix(p, top_slash.as_str()) {
        let r = strip_prefix(p, top_slash.as_str());
        proof {
            reveal_strlit("/");
            assert(top_slash@.len() == top@.len() + 1);
            assert(r@ == p@.skip(top@.len() + 1 as int));
        }
        Some(r)
    } else {
        Some(String::from_str(p))
    }
}

/// Flattening a single-wrapper archive reparents every path: an entry that
/// is the wrapper itself disappears, and every other entry under the
/// wrapper survives with exactly the leading `top/` removed, so the
/// payload's own layout stands directly under the target directory.
pub proof fn lemma_flatten_under_wrapper(p: Seq<char>, top: Seq<char>)
    requires
        (top + "/"@).is_prefix_of(p) || p == top || p == top + "/"@,
    ensures
        match flattened_path_of(p, top) {
            None => p == top || p == top + "/"@,
            Some(q) => p == top + "/"@ + q,
        },
{
    reveal_strlit("/");
    if p != top && p != top + "/"@ {
        assert((top + "/"@).is_prefix_of(p));
        assert(p =~= top + "/"@ + p.skip(top.len() + 1 as int));
    }
}

/// How many entries a tar's progress is estimated against.
pub open spec fn spec_tar_entry_estimate() -> u64 {
    1000
}

/// The fixed entry-count estimate a tar's progress is measured against.
pub fn tar_entry_estimate() -> (r: u64)
    ensures
        r == spec_tar_entry_estimate(),
{
    1000
}

/// A progress fraction: `num` parts of `den`.
#[derive(Clone, Copy, PartialEq, Eq, Debug, Structural)]
pub struct Progress {
    pub num: u64,
    pub den: u64,
}

/// Zip extraction progress is exact: entries written over total entries.
pub fn zip_progress(written: usize, total: usize) -> (r: Progress)
    requires
        0 < total,
        written <= total,
    ensures
        r.num == written,
        r.den == total,
        r.num <= r.den,
{
    Progress { num: written as u64, den: total as u64 }
}

/// Tar extraction progress is an estimate against a fixed denominator,
/// capped at one: it never decreases and never exceeds the whole.
pub fn tar_progress(written: u64) -> (r: Progress)
    ensures
        r.den == spec_tar_entry_estimate(),
        r.num == (if written <= spec_tar_entry_estimate() {
            written
        } else {
            spec_tar_entry_estimate()
        }),
        r.num <= r.den,
{
    let est = tar_entry_estimate();
    if written <= est {
        Progress { num: written, den: est }
    } else {
        Progress { num: est, den: est }
    }
}

} // verus!
