//! Environment configuration records.
//!
//! Instead of mutating the process environment, the library states what
//! the environment should become: which variables to set and which
//! directories to prepend to PATH.  The caller applies the record; it is
//! process-scoped only, and the record says whether the user must be told
//! that persistent configuration needs manual action.

use vstd::prelude::*;
use vstd::string::*;

use crate::Vendor;
use crate::platform::Os;

verus! {

/// The environment changes an installation calls for.
pub struct EnvConfig {
    /// Variables to set, in order.
    pub vars: Vec<(String, String)>,
    /// Directories to prepend to PATH, in order.
    pub path_prefixes: Vec<String>,
    /// Whether the user must be told that persistent configuration
    /// requires manual action.  The Rust toolchain's own installer manages
    /// the shell, so it alone needs no note.
    pub manual_note: bool,
}

/// The variables a vendor's installation sets.
pub open spec fn env_vars_of(v: Vendor, install_path: Seq<char>) -> Seq<(Seq<char>, Seq<char>)> {
    match v {
        Vendor::Python => seq![("PYTHON_HOME"@, install_path)],
        Vendor::Go => seq![("GOROOT"@, install_path)],
        Vendor::CCpp => Seq::empty(),
        Vendor::NodeJs => Seq::empty(),
        Vendor::RustToolchain => Seq::empty(),
        _ => seq![("JAVA_HOME"@, install_path)],
    }
}

/// The PATH prefixes a vendor's installation adds.
pub open spec fn env_paths_of(v: Vendor, install_path: Seq<char>, os: Os) -> Seq<Seq<char>> {
    match v {
        Vendor::CCpp => seq![install_path + "/bin"@],
        Vendor::Go => seq![install_path + "/bin"@],
        Vendor::NodeJs => if os == Os::Windows {
            seq![install_path]
        } else {
            seq![install_path + "/bin"@]
        },
        _ => Seq::empty(),
    }
}

/// Produces the environment record for a finished installation:
/// `JAVA_HOME` for the JDKs, `PYTHON_HOME` for Python, `GOROOT` plus a
/// PATH prefix for Go, a PATH prefix only for C/C++ and Node.js, and
/// nothing for the Rust toolchain.
pub fn configure(v: Vendor, install_path: &str, os: Os) -> (r: EnvConfig)
    ensures
        r.vars.deep_view() == env_vars_of(v, install_path@),
        r.path_prefixes.deep_view() == env_paths_of(v, install_path@, os),
        r.manual_note == (v != Vendor::RustToolchain),
{
    let mut vars: Vec<(String, String)> = Vec::new();
    let mut paths: Vec<String> = Vec::new();
    let manual_note = !matches!(v, Vendor::RustToolchain);
    match v {
        Vendor::Python => {
            vars.push((String::from_str("PYTHON_HOME"), String::from_str(install_path)));
        },
        Vendor::Go => {
            vars.push((String::from_str("GOROOT"), String::from_str(install_path)));
            let mut bin = String::from_str(install_path);
            bin.append("/bin");
            paths.push(bin);
        },
        Vendor::CCpp => {
            let mut bin = String::from_str(install_path);
            bin.append("/bin");
            paths.push(bin);
        },
        Vendor::NodeJs => {
            if matches!(os, Os::Windows) {
                paths.push(String::from_str(install_path));
            } else {
                let mut bin = String::from_str(install_path);
                bin.append("/bin");
                paths.push(bin);
            }
        },
        Vendor::RustToolchain => {},
        _ => {
            vars.push((String::from_str("JAVA_HOME"), String::from_str(install_path)));
        },
    }
    proof {
        assert(vars.deep_view() =~= env_vars_of(v, install_path@));
        assert(paths.deep_view() =~= env_paths_of(v, install_path@, os));
    }
    EnvConfig { vars, path_prefixes: paths, manual_note }
}

} // verus!
