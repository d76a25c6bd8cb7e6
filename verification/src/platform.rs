//! Operating system and architecture naming.
//!
//! The running platform is reported by the caller as the plain OS and
//! architecture strings the Rust toolchain defines (`windows` / `macos` /
//! `linux`, `x86_64` / `aarch64` / ...).  Each vendor names architectures its
//! own way; the maps here translate.

use vstd::prelude::*;
use vstd::string::*;

use crate::text::str_eq;

verus! {

/// The operating systems the installer supports.
#[derive(Clone, Copy, PartialEq, Eq, Debug, Structural)]
pub enum Os {
    Windows,
    MacOs,
    Linux,
}

impl Os {
    /// The name vendors use for this system in download URLs: `windows`,
    /// `darwin` or `linux`.
    pub open spec fn spec_name(self) -> Seq<char> {
        match self {
            Os::Windows => "windows"@,
            Os::MacOs => "darwin"@,
            Os::Linux => "linux"@,
        }
    }

    /// The vendor-facing name of this system.
    pub fn name(self) -> (r: &'static str)
        ensures
            r@ == self.spec_name(),
    {
        match self {
            Os::Windows => "windows",
            Os::MacOs => "darwin",
            Os::Linux => "linux",
        }
    }
}

/// The running platform: a supported operating system and the raw
/// architecture string.
pub struct Platform {
    pub os: Os,
    pub arch: String,
}

/// Which supported system an OS string names, if any.
pub open spec fn os_of(name: Seq<char>) -> Option<Os> {
    if name == "windows"@ {
        Some(Os::Windows)
    } else if name == "macos"@ {
        Some(Os::MacOs)
    } else if name == "linux"@ {
        Some(Os::Linux)
    } else {
        None
    }
}

/// Maps the reported OS and architecture strings to a supported platform,
/// or `None` when the system is unsupported.
pub fn detect_platform(os: &str, arch: &str) -> (r: Option<Platform>)
    ensures
        match r {
            Some(p) => os_of(os@) == Some(p.os) && p.arch@ == arch@,
            None => os_of(os@) is None,
        },
{
    let mapped = if str_eq(os, "windows") {
        Some(Os::Windows)
    } else if str_eq(os, "macos") {
        Some(Os::MacOs)
    } else if str_eq(os, "linux") {
        Some(Os::Linux)
    } else {
        None
    };
    match mapped {
        Some(o) => Some(Platform { os: o, arch: String::from_str(arch) }),
        None => None,
    }
}

/// The JDK vendors' name for an architecture: `x86_64` becomes `x64`,
/// `aarch64` stays, anything else is passed through unchanged.
pub open spec fn jdk_arch_of(arch: Seq<char>) -> Seq<char> {
    if arch == "x86_64"@ {
        "x64"@
    } else {
        arch
    }
}

/// Maps an architecture string to the JDK vendors' naming.
pub fn jdk_arch(arch: &str) -> (r: String)
    ensures
        r@ == jdk_arch_of(arch@),
{
    if str_eq(arch, "x86_64") {
        String::from_str("x64")
    } else {
        String::from_str(arch)
    }
}

/// Node.js's name for an architecture: `x86_64` becomes `x64`, `aarch64`
/// becomes `arm64`, anything else is passed through unchanged.
pub open spec fn node_arch_of(arch: Seq<char>) -> Seq<char> {
    if arch == "x86_64"@ {
        "x64"@
    } else if arch == "aarch64"@ {
        "arm64"@
    } else {
        arch
    }
}

/// Maps an architecture string to Node.js's naming.
pub fn node_arch(arch: &str) -> (r: String)
    ensures
        r@ == node_arch_of(arch@),
{
    if str_eq(arch, "x86_64") {
        String::from_str("x64")
    } else if str_eq(arch, "aarch64") {
        String::from_str("arm64")
    } else {
        String::from_str(arch)
    }
}

/// Go's name for an architecture: only `x86_64` (`amd64`) and `aarch64`
/// (`arm64`) are supported.
pub open spec fn go_arch_of(arch: Seq<char>) -> Option<Seq<char>> {
    if arch == "x86_64"@ {
        Some("amd64"@)
    } else if arch == "aarch64"@ {
        Some("arm64"@)
    } else {
        None
    }
}

/// Maps an architecture string to Go's naming, or `None` when Go does not
/// support the architecture.
pub fn go_arch(arch: &str) -> (r: Option<String>)
    ensures
        match r {
            Some(a) => go_arch_of(arch@) == Some(a@),
            None => go_arch_of(arch@) is None,
        },
{
    if str_eq(arch, "x86_64") {
        Some(String::from_str("amd64"))
    } else if str_eq(arch, "aarch64") {
        Some(String::from_str("arm64"))
    } else {
        None
    }
}

} // verus!
