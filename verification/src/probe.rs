//! Probing an installed toolchain for its version.
//!
//! Each vendor's version-query command reports in its own format; the
//! parsers here reduce every format to a bare version string.  The same
//! parsing serves two callers: the idempotency check before a download, and
//! the verification step after an install.

use vstd::prelude::*;
use vstd::string::*;

use crate::Vendor;
use crate::compat::{compatible, is_version_compatible};
use crate::platform::Os;
use crate::text::{
    Sep, contains_sub, has_sub, lemma_split_nonempty, lines, lines_of, split_of, split_str,
    strip_prefix, strip_prefix_of, tokens, tokens_of, trim, trim_of,
};

verus! {

/// What a finished version-query subprocess reported.
pub struct CommandOutput {
    /// Whether the process exited successfully.
    pub status_ok: bool,
    /// Captured standard output, decoded as text.
    pub stdout: String,
    /// Captured standard error, decoded as text.
    pub stderr: String,
}

/// `s` with every trailing `"` removed.
pub open spec fn trim_quotes_of(s: Seq<char>) -> Seq<char>
    decreases s.len(),
{
    if s.len() > 0 && s.last() == '"' {
        trim_quotes_of(s.take(s.len() - 1))
    } else {
        s
    }
}

/// Removes every trailing `"` from `s`.
pub fn trim_quotes(s: &str) -> (r: String)
    ensures
        r@ == trim_quotes_of(s@),
{
    let slen = s.unicode_len();
    let mut j: usize = slen;
    proof {
        assert(s@.take(slen as int) =~= s@);
    }
    while j > 0 && s.get_char(j - 1) == '"'
        invariant
            slen == s@.len(),
            j <= slen,
            trim_quotes_of(s@) == trim_quotes_of(s@.take(j as int)),
        decreases j,
    {
        proof {
            let cur = s@.take(j as int);
            assert(cur.last() == s@[j - 1]);
            assert(cur.take(cur.len() - 1) =~= s@.take(j - 1));
        }
        j -= 1;
    }
    let r = s.substring_char(0, j);
    proof {
        let cur = s@.take(j as int);
        assert(r@ =~= cur);
        if j > 0 {
            assert(cur.last() == s@[j - 1]);
        }
    }
    r_to_string(r)
}

/// Copies a borrowed string slice into an owned string.
fn r_to_string(s: &str) -> (r: String)
    ensures
        r@ == s@,
{
    String::from_str(s)
}

/// The first line of `out`, or `dflt` when `out` has no lines.
pub open spec fn first_line_or(out: Seq<char>, dflt: Seq<char>) -> Seq<char> {
    if lines_of(out).len() > 0 {
        lines_of(out)[0]
    } else {
        dflt
    }
}

/// The first line of `s`, or `dflt` when `s` has none.
fn first_line_or_str(s: &str, dflt: &str) -> (r: String)
    ensures
        r@ == first_line_or(s@, dflt@),
{
    let ls = lines(s);
    if ls.len() > 0 {
        let r = ls[0].clone();
        proof {
            assert(r@ == lines_of(s@)[0]);
        }
        r
    } else {
        String::from_str(dflt)
    }
}

/// Python reports `Python <version>` on standard output.
pub open spec fn python_version_of(stdout: Seq<char>) -> Seq<char> {
    strip_prefix_of(trim_of(stdout), "Python "@)
}

/// Rust reports `rustc <version> (<hash> <date>)` on the first line of
/// standard output; the version is the token before the first space.
pub open spec fn rust_version_of(stdout: Seq<char>) -> Seq<char> {
    let line = first_line_or(stdout, "unknown rustc version"@);
    split_of(Sep::Space, strip_prefix_of(line, "rustc "@))[0]
}

/// The C/C++ compiler's version is the third whitespace-delimited token of
/// the first line of standard output.
pub open spec fn c_cpp_version_of(stdout: Seq<char>) -> Seq<char> {
    let t = tokens_of(first_line_or(stdout, "unknown gcc version"@));
    if t.len() > 2 {
        t[2]
    } else {
        "unknown"@
    }
}

/// Node.js reports `v<version>` on standard output.
pub open spec fn node_version_of(stdout: Seq<char>) -> Seq<char> {
    strip_prefix_of(trim_of(stdout), "v"@)
}

/// Go reports `go version go<version> <platform>` on standard output.
pub open spec fn go_version_of(stdout: Seq<char>) -> Seq<char> {
    let t = tokens_of(strip_prefix_of(trim_of(stdout), "go version go"@));
    if t.len() > 0 {
        t[0]
    } else {
        "unknown"@
    }
}

/// The first line of `ls` that mentions `version`, if any.
pub open spec fn version_line_of(ls: Seq<Seq<char>>) -> Option<Seq<char>>
    decreases ls.len(),
{
    if ls.len() == 0 {
        None
    } else if has_sub(ls[0], "version"@) {
        Some(ls[0])
    } else {
        version_line_of(ls.skip(1))
    }
}

/// JDKs report on standard error; the version stands on the line mentioning
/// `version`, between quotes after `openjdk version` or `java version`.
pub open spec fn java_version_of(stderr: Seq<char>) -> Seq<char> {
    match version_line_of(lines_of(stderr)) {
        Some(l) => trim_quotes_of(
            strip_prefix_of(strip_prefix_of(l, "openjdk version \""@), "java version \""@),
        ),
        None => "unknown"@,
    }
}

/// What the vendor's version-query command reports, parsed from its output
/// streams under that vendor's convention.
pub open spec fn version_output_of(v: Vendor, stdout: Seq<char>, stderr: Seq<char>) -> Seq<char> {
    match v {
        Vendor::Python => python_version_of(stdout),
        Vendor::RustToolchain => rust_version_of(stdout),
        Vendor::CCpp => c_cpp_version_of(stdout),
        Vendor::NodeJs => node_version_of(stdout),
        Vendor::Go => go_version_of(stdout),
        _ => java_version_of(stderr),
    }
}

/// Parses the version a vendor's version-query command reported.
pub fn parse_version_output(v: Vendor, stdout: &str, stderr: &str) -> (r: String)
    ensures
        r@ == version_output_of(v, stdout@, stderr@),
{
    match v {
        Vendor::Python => strip_prefix(trim(stdout), "Python "),
        Vendor::RustToolchain => {
            let line = first_line_or_str(stdout, "unknown rustc version");
            let stripped = strip_prefix(line.as_str(), "rustc ");
            let parts = split_str(Sep::Space, stripped.as_str());
            proof {
                lemma_split_nonempty(Sep::Space, stripped@);
            }
            let r = parts[0].clone();
            proof {
                assert(r@ == split_of(Sep::Space, stripped@)[0]);
            }
            r
        },
        Vendor::CCpp => {
            let line = first_line_or_str(stdout, "unknown gcc version");
            let t = tokens(line.as_str());
            if t.len() > 2 {
                let r = t[2].clone();
                proof {
                    assert(r@ == tokens_of(line@)[2]);
                }
                r
            } else {
                String::from_str("unknown")
            }
        },
        Vendor::NodeJs => strip_prefix(trim(stdout), "v"),
        Vendor::Go => {
            let stripped = strip_prefix(trim(stdout), "go version go");
            let t = tokens(stripped.as_str());
            if t.len() > 0 {
                let r = t[0].clone();
                proof {
                    assert(r@ == tokens_of(stripped@)[0]);
                }
                r
            } else {
                String::from_str("unknown")
            }
        },
        _ => {
            let ls = lines(stderr);
            let ghost lv = lines_of(stderr@);
            let mut i: usize = 0;
            proof {
                assert(lv.skip(0) =~= lv);
            }
            while i < ls.len()
                invariant
                    version_output_of(v, stdout@, stderr@) == java_version_of(stderr@),
                    lv == lines_of(stderr@),
                    ls.deep_view() == lv,
                    i <= ls.len(),
                    version_line_of(lv) == version_line_of(lv.skip(i as int)),
                    forall|j: int| 0 <= j < i ==> !has_sub(lv[j], "version"@),
                decreases ls.len() - i,
            {
                proof {
                    assert(lv.skip(i as int)[0] == lv[i as int]);
                    assert(lv.skip(i as int).skip(1) =~= lv.skip(i + 1));
                }
                if contains_sub(ls[i].as_str(), "version") {
                    let line = ls[i].as_str();
                    let stripped = strip_prefix(
                        strip_prefix(line, "openjdk version \"").as_str(),
                        "java version \"",
                    );
                    let r = trim_quotes(stripped.as_str());
                    proof {
                        assert(line@ == lv[i as int]);
                        assert(version_line_of(lv) == Some(lv[i as int]));
                        assert(r@ == java_version_of(stderr@));
                    }
                    return r;
                }
                i += 1;
            }
            proof {
                assert(lv.skip(ls.len() as int) =~= Seq::<Seq<char>>::empty());
            }
            String::from_str("unknown")
        },
    }
}

/// The path of the version-query executable, relative to the install path.
pub open spec fn probe_exe_rel_of(v: Vendor, os: Os) -> Seq<char> {
    match v {
        Vendor::Python => if os == Os::Windows {
            "python.exe"@
        } else {
            "bin/python3"@
        },
        Vendor::CCpp => if os == Os::Windows {
            "bin/gcc.exe"@
        } else {
            "bin/gcc"@
        },
        Vendor::RustToolchain => "bin/rustc"@,
        Vendor::NodeJs => if os == Os::Windows {
            "node.exe"@
        } else {
            "bin/node"@
        },
        Vendor::Go => if os == Os::Windows {
            "bin/go.exe"@
        } else {
            "bin/go"@
        },
        _ => if os == Os::Windows {
            "bin/java.exe"@
        } else {
            "bin/java"@
        },
    }
}

/// Where the vendor's version-query executable stands inside an install
/// path.
pub fn probe_exe_rel(v: Vendor, os: Os) -> (r: &'static str)
    ensures
        r@ == probe_exe_rel_of(v, os),
{
    let windows = matches!(os, Os::Windows);
    match v {
        Vendor::Python => if windows {
            "python.exe"
        } else {
            "bin/python3"
        },
        Vendor::CCpp => if windows {
            "bin/gcc.exe"
        } else {
            "bin/gcc"
        },
        Vendor::RustToolchain => "bin/rustc",
        Vendor::NodeJs => if windows {
            "node.exe"
        } else {
            "bin/node"
        },
        Vendor::Go => if windows {
            "bin/go.exe"
        } else {
            "bin/go"
        },
        _ => if windows {
            "bin/java.exe"
        } else {
            "bin/java"
        },
    }
}

/// The argument that makes the vendor's executable report its version.
pub open spec fn version_arg_of(v: Vendor) -> Seq<char> {
    match v {
        Vendor::Go => "version"@,
        Vendor::AzulZulu => "-version"@,
        Vendor::Temurin => "-version"@,
        Vendor::OpenJdk => "-version"@,
        _ => "--version"@,
    }
}

/// The vendor's version-query argument.
pub fn version_arg(v: Vendor) -> (r: &'static str)
    ensures
        r@ == version_arg_of(v),
{
    match v {
        Vendor::Go => "version",
        Vendor::AzulZulu => "-version",
        Vendor::Temurin => "-version",
        Vendor::OpenJdk => "-version",
        _ => "--version",
    }
}

/// Whether a compatible installation already exists.
#[derive(Clone, Copy, PartialEq, Eq, Debug, Structural)]
pub enum InstallCheck {
    Installed,
    NotInstalled,
}

/// Whether an existing installation at the install path satisfies the
/// target version.  `probe` is the version-query output when the executable
/// could be run, `None` when running it failed; any failure to probe counts
/// as not installed, so installation proceeds defensively.
pub fn check_existing(
    v: Vendor,
    path_exists: bool,
    exe_exists: bool,
    probe: Option<&CommandOutput>,
    target: &str,
) -> (r: InstallCheck)
    ensures
        r == InstallCheck::Installed <==> (path_exists && exe_exists && match probe {
            Some(out) => compatible(version_output_of(v, out.stdout@, out.stderr@), target@),
            None => false,
        }),
{
    if !path_exists || !exe_exists {
        return InstallCheck::NotInstalled;
    }
    match probe {
        Some(out) => {
            let installed = parse_version_output(v, out.stdout.as_str(), out.stderr.as_str());
            if is_version_compatible(installed.as_str(), target) {
                InstallCheck::Installed
            } else {
                InstallCheck::NotInstalled
            }
        },
        None => InstallCheck::NotInstalled,
    }
}

} // verus!
