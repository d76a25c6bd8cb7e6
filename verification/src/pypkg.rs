//! Python package handling.
//!
//! After a Python installation is verified, the requested package
//! specifiers are installed one by one and each installed version is held
//! against its specifier.  The parsing here — splitting the request list,
//! extracting a bare package name from a specifier, and reading the
//! version out of the package manager's `show` output — is verified; the
//! package manager runs outside.

use vstd::prelude::*;
use vstd::string::*;

use crate::text::{
    Sep, csv_items, csv_items_of, has_prefix, lemma_split_nonempty, lines, lines_of, split_of,
    split_str, trim, trim_of,
};

verus! {

/// The package specifiers of a request: the comma-separated items, each
/// trimmed, empty items dropped.
pub fn split_package_specs(input: &str) -> (r: Vec<String>)
    ensures
        r.deep_view() == csv_items_of(input@),
{
    csv_items(input)
}

/// Whether a character separates a package name from its version
/// constraint.
pub open spec fn is_constraint_char(c: char) -> bool {
    c == '=' || c == '>' || c == '<' || c == '~'
}

/// How many leading characters of a specifier belong to the package name.
pub open spec fn name_len_of(sp: Seq<char>) -> int
    decreases sp.len(),
{
    if sp.len() == 0 {
        0
    } else if is_constraint_char(sp[0]) {
        0
    } else {
        1 + name_len_of(sp.skip(1))
    }
}

/// The package name of a specifier: everything before the first
/// constraint character.
pub open spec fn package_name_of(sp: Seq<char>) -> Seq<char> {
    sp.take(name_len_of(sp))
}

/// The length of the name part never exceeds the specifier.
proof fn lemma_name_len_bounds(sp: Seq<char>)
    ensures
        0 <= name_len_of(sp) <= sp.len(),
    decreases sp.len(),
{
    if sp.len() > 0 && !is_constraint_char(sp[0]) {
        lemma_name_len_bounds(sp.skip(1));
    }
}

/// Extracts the bare package name from a specifier, as `package_name_of`
/// describes.
pub fn package_name(sp: &str) -> (r: String)
    ensures
        r@ == package_name_of(sp@),
{
    let slen = sp.unicode_len();
    let mut i: usize = 0;
    proof {
        assert(sp@.skip(0) =~= sp@);
    }
    while i < slen && !is_constraint(sp.get_char(i))
        invariant
            slen == sp@.len(),
            i <= slen,
            name_len_of(sp@) == i + name_len_of(sp@.skip(i as int)),
        decreases slen - i,
    {
        proof {
            assert(sp@.skip(i as int)[0] == sp@[i as int]);
            assert(sp@.skip(i as int).skip(1) =~= sp@.skip(i + 1));
        }
        i += 1;
    }
    proof {
        lemma_name_len_bounds(sp@.skip(i as int));
        if i < slen {
            assert(sp@.skip(i as int)[0] == sp@[i as int]);
        } else {
            assert(sp@.skip(i as int) =~= Seq::<char>::empty());
        }
        assert(name_len_of(sp@) == i as int);
    }
    let r = sp.substring_char(0, i);
    proof {
        assert(r@ =~= sp@.take(i as int));
    }
    String::from_str(r)
}

/// Executable test for a constraint character.
fn is_constraint(c: char) -> (r: bool)
    ensures
        r == is_constraint_char(c),
{
    c == '=' || c == '>' || c == '<' || c == '~'
}

/// The first line of `ls` that begins with `Version:`, if any.
pub open spec fn version_field_line(ls: Seq<Seq<char>>) -> Option<Seq<char>>
    decreases ls.len(),
{
    if ls.len() == 0 {
        None
    } else if "Version:"@.is_prefix_of(ls[0]) {
        Some(ls[0])
    } else {
        version_field_line(ls.skip(1))
    }
}

/// The version the package manager's `show` output reports: the trimmed
/// text between the first and second colon of the `Version:` line, or
/// `unknown` when no such line appears.
pub open spec fn pip_show_version_of(stdout: Seq<char>) -> Seq<char> {
    match version_field_line(lines_of(stdout)) {
        Some(l) => {
            let parts = split_of(Sep::Colon, l);
            if parts.len() >= 2 {
                trim_of(parts[1])
            } else {
                "unknown"@
            }
        },
        None => "unknown"@,
    }
}

/// Reads the installed version out of the package manager's `show`
/// output, as `pip_show_version_of` describes.
pub fn parse_pip_show_version(stdout: &str) -> (r: String)
    ensures
        r@ == pip_show_version_of(stdout@),
{
    let ls = lines(stdout);
    let ghost lv = lines_of(stdout@);
    let mut i: usize = 0;
    proof {
        assert(lv.skip(0) =~= lv);
    }
    while i < ls.len()
        invariant
            lv == lines_of(stdout@),
            ls.deep_view() == lv,
            i <= ls.len(),
            version_field_line(lv) == version_field_line(lv.skip(i as int)),
        decreases ls.len() - i,
    {
        proof {
            assert(lv.skip(i as int)[0] == lv[i as int]);
            assert(lv.skip(i as int).skip(1) =~= lv.skip(i + 1));
        }
        if has_prefix(ls[i].as_str(), "Version:") {
            proof {
                assert(version_field_line(lv) == Some(lv[i as int]));
            }
            let parts = split_str(Sep::Colon, ls[i].as_str());
            proof {
                lemma_split_nonempty(Sep::Colon, lv[i as int]);
            }
            if parts.len() >= 2 {
                let r = String::from_str(trim(parts[1].as_str()));
                proof {
                    assert(r@ == trim_of(split_of(Sep::Colon, lv[i as int])[1]));
                }
                return r;
            } else {
                return String::from_str("unknown");
            }
        }
        i += 1;
    }
    proof {
        assert(lv.skip(ls.len() as int) =~= Seq::<Seq<char>>::empty());
    }
    String::from_str("unknown")
}

} // verus!
