//! Installation orchestration engine for developer toolchains.
//!
//! The library resolves a download URL and version for a requested toolchain
//! vendor, decides whether a compatible installation already exists, tracks a
//! cancellable chunked download, plans multi-format archive extraction with
//! top-level directory flattening, produces the environment configuration to
//! apply, and checks installed versions for compatibility.  All decisions are
//! made here on plain values; the surrounding application performs the
//! network, filesystem and subprocess work those decisions call for.

pub mod archive;
pub mod compat;
pub mod download;
pub mod envcfg;
pub mod laws;
pub mod listing;
pub mod orchestrate;
pub mod platform;
pub mod probe;
pub mod pypkg;
pub mod resolve;
pub mod text;

use vstd::prelude::*;

verus! {

/// The supported toolchain providers.
#[derive(Clone, Copy, PartialEq, Eq, Debug, Structural)]
pub enum Vendor {
    AzulZulu,
    Temurin,
    OpenJdk,
    Python,
    CCpp,
    RustToolchain,
    NodeJs,
    Go,
}

impl Vendor {
    /// True for the three JDK distributions, which share probe and
    /// environment conventions.
    pub open spec fn spec_is_java(self) -> bool {
        self == Vendor::AzulZulu || self == Vendor::Temurin || self == Vendor::OpenJdk
    }

    #[verifier::when_used_as_spec(spec_is_java)]
    pub fn is_java(self) -> (r: bool)
        ensures
            r == self.spec_is_java(),
    {
        match self {
            Vendor::AzulZulu => true,
            Vendor::Temurin => true,
            Vendor::OpenJdk => true,
            _ => false,
        }
    }
}

} // verus!
