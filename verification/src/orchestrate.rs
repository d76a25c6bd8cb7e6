//! The installation orchestrator.
//!
//! One run installs one vendor at one version: resolve, short-circuit if a
//! compatible installation exists, download in cancellable chunks, unpack
//! entry by entry, flatten a single wrapping directory, emit the
//! environment record, verify the installed executable, and for Python
//! bootstrap the package manager and install the requested packages.  The
//! orchestrator holds the run's state and makes every decision; each step
//! returns the one action the caller must perform next, and the caller
//! reports what happened.  Cancellation is observed only between one
//! download chunk and the next, or between one archive entry and the next.

use vstd::prelude::*;
use vstd::string::*;

use crate::Vendor;
use crate::archive::{
    ArchiveEntry, ExtractError, Progress, detect_top_dir, entries_listing_of,
    list_archive_entries, spec_tar_entry_estimate, tar_progress, top_dir_of,
};
use crate::compat::{compatible, is_version_compatible};
use crate::download::DownloadTracker;
use crate::envcfg::{EnvConfig, configure, env_paths_of, env_vars_of};
use crate::listing::{
    go_downloads_url, go_resolution, hrefs_in, node_base_url, node_file_pick, node_lts_dirs,
    node_lts_dirs_of, node_pick_file, node_target, node_target_view, openjdk_resolution,
    python_latest_resolution, python_selector, python_latest_version, resolve_go, resolve_openjdk,
    texts_in,
};
use crate::platform::Os;
use crate::probe::{
    CommandOutput, InstallCheck, check_existing, parse_version_output, probe_exe_rel,
    probe_exe_rel_of, version_arg, version_arg_of, version_output_of,
};
use crate::pypkg::{
    package_name, package_name_of, parse_pip_show_version, pip_show_version_of,
    split_package_specs,
};
use crate::resolve::{
    ArchiveKind, ResolveError, ResolvedTarget, TargetView, azul_packages_of, azul_query_url,
    azul_query_url_of, azul_resolution, openjdk_page_url, openjdk_page_url_of, python_target,
    python_url_of, resolve_azul, resolve_c_cpp, resolve_rust, resolve_temurin, rust_url_of,
    temurin_assets_of, temurin_query_url, temurin_query_url_of, temurin_resolution,
};
use crate::text::csv_items_of;

verus! {

/// One installation request, immutable for the length of its run.
pub struct InstallRequest {
    pub vendor: Vendor,
    pub version: String,
    pub install_latest: bool,
    /// Comma-separated package specifiers; Python only.
    pub python_libraries: String,
}

/// Why a run failed.
#[derive(Clone, Copy, PartialEq, Eq, Debug, Structural)]
pub enum FailureKind {
    /// Resolution returned a typed error.
    Resolution(ResolveError),
    /// The metadata fetch or the archive download failed on the network.
    Download,
    /// The rustup bootstrap installer exited unsuccessfully.
    RustInstallerFailed,
    /// The archive could not be listed, unpacked or flattened.
    Extraction(ExtractError),
    /// The installed executable could not be run or exited unsuccessfully.
    VerificationFailed,
    /// The verified Python version does not satisfy the request.
    VersionMismatch,
    /// Bootstrapping the package manager failed where that is fatal.
    PipBootstrapFailed,
    /// Installing a requested package failed.
    PackageInstallFailed,
    /// An installed package's version does not satisfy its specifier.
    PackageIncompatible,
}

/// How a run ended.
#[derive(Clone, Copy, PartialEq, Eq, Debug, Structural)]
pub enum InstallOutcome {
    Success,
    /// The user requested a stop; distinct from failure.
    Cancelled,
    Failed(FailureKind),
}

/// Where a run stands: which report it is waiting for.
#[derive(Clone, Copy, PartialEq, Eq, Debug, Structural)]
pub enum Phase {
    AwaitMetadata,
    AwaitNodeDir,
    AwaitProbe,
    AwaitDownloadStart,
    Downloading,
    AwaitRustInstaller,
    Extracting,
    AwaitFlatten,
    AwaitEnv,
    AwaitVerify,
    AwaitPipBootstrap,
    AwaitPipInstall,
    AwaitPipShow,
    Done,
}

/// What the caller must do next.  Entry paths are relative to the install
/// path; every other path is absolute.
pub enum Action {
    /// Fetch the page or metadata at `url` and report its text.
    Fetch { url: String },
    /// Report whether the install path and its executable exist, and the
    /// version-query output if the executable could be run.
    Probe { install_path: String, exe_rel: String, arg: String },
    /// Open the archive download at `url` and report its content length.
    StartDownload { url: String },
    /// Read the next chunk of the open download and report it.
    ReadChunk,
    /// Write the buffered bytes to `script_name` under the install root,
    /// make it executable, run it, and report its output.
    RunRustInstaller { script_name: String },
    /// Recreate entry `index` of the buffered archive at `rel_path` under
    /// the install path and report whether that succeeded.
    WriteEntry { index: usize, rel_path: String, is_dir: bool },
    /// Move the contents of `wrapper` under the install path one level up,
    /// remove the emptied wrapper, and report whether that succeeded.
    Flatten { wrapper: String },
    /// Apply the environment record and report back.
    ApplyEnv { config: EnvConfig },
    /// Run the installed executable's version query and report its output.
    RunVerify { install_path: String, exe_rel: String, arg: String },
    /// Download the package-manager bootstrap script at `script_url` into
    /// the install path, run it with the installed interpreter, delete it,
    /// and report the run's output.
    BootstrapPipWindows { script_url: String },
    /// Invoke the interpreter's built-in package-manager bootstrap and
    /// report its output.
    RunEnsurepip,
    /// Install one package specifier and report the output.
    PipInstall { spec: String },
    /// Query one installed package's metadata and report the output.
    PipShow { name: String },
    /// The run is over; the outcome is set.
    Finished,
}

/// The short key a vendor's directories carry.
pub open spec fn vendor_key_of(v: Vendor) -> Seq<char> {
    match v {
        Vendor::AzulZulu => "azul"@,
        Vendor::Temurin => "temurin"@,
        Vendor::OpenJdk => "openjdk"@,
        Vendor::Python => "python"@,
        Vendor::CCpp => "c_cpp"@,
        Vendor::RustToolchain => "rust"@,
        Vendor::NodeJs => "nodejs"@,
        Vendor::Go => "go"@,
    }
}

/// A vendor's directory key.
pub fn vendor_key(v: Vendor) -> (r: &'static str)
    ensures
        r@ == vendor_key_of(v),
{
    match v {
        Vendor::AzulZulu => "azul",
        Vendor::Temurin => "temurin",
        Vendor::OpenJdk => "openjdk",
        Vendor::Python => "python",
        Vendor::CCpp => "c_cpp",
        Vendor::RustToolchain => "rust",
        Vendor::NodeJs => "nodejs",
        Vendor::Go => "go",
    }
}

/// The install path for a vendor at a resolved version, relative to the
/// user's home directory.  The path is uniquely determined by vendor and
/// version; the Rust toolchain alone lands at rustup's fixed directory,
/// whatever the version.
pub open spec fn install_rel_of(v: Vendor, version: Seq<char>) -> Seq<char> {
    if v == Vendor::RustToolchain {
        ".cargo"@
    } else {
        "jdkm/"@ + vendor_key_of(v) + "_versions/"@ + vendor_key_of(v) + "-"@ + version
    }
}

/// Builds the install path for a vendor at a resolved version, relative
/// to the user's home directory.
pub fn install_rel(v: Vendor, version: &str) -> (r: String)
    ensures
        r@ == install_rel_of(v, version@),
        r@.len() > 0,
{
    if matches!(v, Vendor::RustToolchain) {
        proof {
            reveal_strlit(".cargo");
        }
        String::from_str(".cargo")
    } else {
        let mut p = String::from_str("jdkm/");
        p.append(vendor_key(v));
        p.append("_versions/");
        p.append(vendor_key(v));
        p.append("-");
        p.append(version);
        proof {
            reveal_strlit("jdkm/");
        }
        p
    }
}

/// The absolute install path: the install path relative to home, under
/// the home directory.
pub open spec fn install_path_of(home: Seq<char>, v: Vendor, version: Seq<char>) -> Seq<char> {
    home + "/"@ + install_rel_of(v, version)
}

/// Builds the absolute install path under the home directory.
pub fn install_path(home: &str, v: Vendor, version: &str) -> (r: String)
    ensures
        r@ == install_path_of(home@, v, version@),
{
    let mut p = String::from_str(home);
    p.append("/");
    let rel = install_rel(v, version);
    p.append(rel.as_str());
    p
}

/// A run's log is an append-only audit trail: every line once written
/// stays, at its place, until the run is over.  Each step's contract
/// promises that the new log extends the old one.
pub open spec fn log_extends(now: Seq<String>, before: Seq<String>) -> bool {
    before.len() <= now.len() && (forall|i: int| 0 <= i < before.len() ==> now[i] == before[i])
}

/// One installation run's state.  Progress fractions are owned here,
/// updated by the run, and read by the caller's interface.
pub struct Orchestrator {
    pub vendor: Vendor,
    pub os: Os,
    pub arch: String,
    pub home: String,
    pub requested_version: String,
    pub install_latest: bool,
    pub python_libraries: String,
    pub phase: Phase,
    pub target: Option<ResolvedTarget>,
    pub buffer: Vec<u8>,
    pub content_total: u64,
    pub entries: Vec<ArchiveEntry>,
    pub next_entry: usize,
    pub top_dir: Option<String>,
    pub node_dirs: Vec<String>,
    pub node_next: usize,
    pub packages: Vec<String>,
    pub next_package: usize,
    pub download_progress: Progress,
    pub extract_progress: Progress,
    pub outcome: Option<InstallOutcome>,
    /// The user-facing status line.
    pub status: String,
    /// The run's log.  It only grows: see `log_extends`.
    pub log: Vec<String>,
}

impl Orchestrator {
    /// The run is over and its outcome is the one given.
    pub open spec fn ended(self, oc: InstallOutcome) -> bool {
        self.phase == Phase::Done && self.outcome == Some(oc)
    }

    /// The run holds the given resolved target and expects the existing-
    /// installation probe for it next.
    pub open spec fn probing(self, t: TargetView) -> bool {
        &&& self.phase == Phase::AwaitProbe
        &&& self.target matches Some(rt) && rt@ == t
        &&& self.outcome is None
    }

    /// What a probe action must ask for, given the target version.
    pub open spec fn probe_action(self, a: Action, version: Seq<char>) -> bool {
        a matches Action::Probe { install_path: ip, exe_rel: er, arg } && ip@ == install_path_of(
            self.home@,
            self.vendor,
            version,
        ) && er@ == probe_exe_rel_of(self.vendor, self.os) && arg@ == version_arg_of(self.vendor)
    }

    /// Begins a run: resolves what can be resolved without the network and
    /// returns the first action.  C/C++ off Windows and OpenJDK with
    /// "latest" fail at once, before any network action; Rust, C/C++ and an
    /// explicit Python version resolve locally and go straight to the
    /// existing-installation probe; every other vendor starts with the
    /// fetch its strategy reads.
    pub fn start(req: InstallRequest, os: Os, arch: &str, home: &str) -> (r: (Orchestrator, Action))
        ensures
            ({
                let (o, a) = r;
                &&& o.vendor == req.vendor
                &&& o.os == os
                &&& o.arch@ == arch@
                &&& o.home@ == home@
                &&& o.requested_version@ == req.version@
                &&& o.install_latest == req.install_latest
                &&& o.python_libraries@ == req.python_libraries@
                &&& (req.vendor == Vendor::CCpp && os != Os::Windows ==> o.ended(
                    InstallOutcome::Failed(
                        FailureKind::Resolution(ResolveError::UnsupportedPlatform),
                    ),
                ) && a is Finished)
                &&& (req.vendor == Vendor::CCpp && os == Os::Windows ==> o.probing(
                    TargetView {
                        url: crate::resolve::c_cpp_url(),
                        name: "mingw-w64-v11.0.0.zip"@,
                        kind: ArchiveKind::Zip,
                        version: "11.0.0"@,
                    },
                ) && o.probe_action(a, "11.0.0"@))
                &&& (req.vendor == Vendor::RustToolchain ==> o.phase == Phase::AwaitProbe && (
                o.target matches Some(t) && t.download_url@ == rust_url_of(os) && t.kind
                    == ArchiveKind::RawExecutable && t.resolved_version@ == "stable"@)
                    && o.probe_action(a, "stable"@))
                &&& (req.vendor == Vendor::Python && !req.install_latest ==> o.phase
                    == Phase::AwaitProbe && (o.target matches Some(t) && t.download_url@
                    == python_url_of(req.version@, os) && t.resolved_version@ == req.version@)
                    && o.probe_action(a, req.version@))
                &&& (req.vendor == Vendor::Python && req.install_latest ==> o.phase
                    == Phase::AwaitMetadata && (a matches Action::Fetch { url } && url@
                    == "https://www.python.org/downloads/"@))
                &&& (req.vendor == Vendor::AzulZulu ==> o.phase == Phase::AwaitMetadata && (
                a matches Action::Fetch { url } && url@ == azul_query_url_of(
                    os,
                    arch@,
                    req.version@,
                    req.install_latest,
                )))
                &&& (req.vendor == Vendor::Temurin ==> o.phase == Phase::AwaitMetadata && (
                a matches Action::Fetch { url } && url@ == temurin_query_url_of(
                    os,
                    arch@,
                    req.version@,
                    req.install_latest,
                )))
                &&& (req.vendor == Vendor::OpenJdk && req.install_latest ==> o.ended(
                    InstallOutcome::Failed(
                        FailureKind::Resolution(ResolveError::LatestUnsupported),
                    ),
                ) && a is Finished)
                &&& (req.vendor == Vendor::OpenJdk && !req.install_latest ==> o.phase
                    == Phase::AwaitMetadata && (a matches Action::Fetch { url } && url@
                    == openjdk_page_url_of(req.version@)))
                &&& (req.vendor == Vendor::NodeJs ==> o.phase == Phase::AwaitMetadata && (
                a matches Action::Fetch { url } && url@ == node_base_url()))
                &&& (req.vendor == Vendor::Go ==> o.phase == Phase::AwaitMetadata && (
                a matches Action::Fetch { url } && url@ == go_downloads_url()))
                &&& (o.phase == Phase::AwaitMetadata || o.phase == Phase::AwaitProbe
                    ==> o.outcome is None)
            }),
    {
        let mut o = Orchestrator {
            vendor: req.vendor,
            os,
            arch: String::from_str(arch),
            home: String::from_str(home),
            requested_version: req.version.clone(),
            install_latest: req.install_latest,
            python_libraries: req.python_libraries.clone(),
            phase: Phase::AwaitMetadata,
            target: None,
            buffer: Vec::new(),
            content_total: 0,
            entries: Vec::new(),
            next_entry: 0,
            top_dir: None,
            node_dirs: Vec::new(),
            node_next: 0,
            packages: Vec::new(),
            next_package: 0,
            download_progress: Progress { num: 0, den: 1 },
            extract_progress: Progress { num: 0, den: 1 },
            outcome: None,
            status: String::from_str("Starting installation process..."),
            log: Vec::new(),
        };
        o.note("Checking system information...");
        let a = match req.vendor {
            Vendor::CCpp => match resolve_c_cpp(os) {
                Ok(t) => o.to_probe(t),
                Err(e) => o.fail(FailureKind::Resolution(e)),
            },
            Vendor::RustToolchain => {
                let t = resolve_rust(os);
                o.to_probe(t)
            },
            Vendor::Python => {
                if req.install_latest {
                    o.phase = Phase::AwaitMetadata;
                    Action::Fetch { url: String::from_str("https://www.python.org/downloads/") }
                } else {
                    let t = python_target(req.version.as_str(), os);
                    o.to_probe(t)
                }
            },
            Vendor::AzulZulu => {
                o.phase = Phase::AwaitMetadata;
                Action::Fetch {
                    url: azul_query_url(
                        os,
                        o.arch.as_str(),
                        req.version.as_str(),
                        req.install_latest,
                    ),
                }
            },
            Vendor::Temurin => {
                o.phase = Phase::AwaitMetadata;
                Action::Fetch {
                    url: temurin_query_url(
                        os,
                        o.arch.as_str(),
                        req.version.as_str(),
                        req.install_latest,
                    ),
                }
            },
            Vendor::OpenJdk => {
                if req.install_latest {
                    o.fail(FailureKind::Resolution(ResolveError::LatestUnsupported))
                } else {
                    o.phase = Phase::AwaitMetadata;
                    Action::Fetch { url: openjdk_page_url(req.version.as_str()) }
                }
            },
            Vendor::NodeJs => {
                o.phase = Phase::AwaitMetadata;
                Action::Fetch { url: String::from_str("https://nodejs.org/dist/latest-lts/") }
            },
            Vendor::Go => {
                o.phase = Phase::AwaitMetadata;
                Action::Fetch { url: String::from_str("https://go.dev/dl/") }
            },
        };
        (o, a)
    }

    /// Appends one line to the run's log and shows it as the status.
    fn note(&mut self, line: &str)
        ensures
            log_extends(final(self).log@, old(self).log@),
            final(self).log@.len() == old(self).log@.len() + 1,
            final(self).log@[old(self).log@.len() as int]@ == line@,
            final(self).status@ == line@,
            final(self).vendor == old(self).vendor,
            final(self).os == old(self).os,
            final(self).arch == old(self).arch,
            final(self).home == old(self).home,
            final(self).requested_version == old(self).requested_version,
            final(self).install_latest == old(self).install_latest,
            final(self).python_libraries == old(self).python_libraries,
            final(self).phase == old(self).phase,
            final(self).target == old(self).target,
            final(self).buffer == old(self).buffer,
            final(self).content_total == old(self).content_total,
            final(self).entries == old(self).entries,
            final(self).next_entry == old(self).next_entry,
            final(self).top_dir == old(self).top_dir,
            final(self).node_dirs == old(self).node_dirs,
            final(self).node_next == old(self).node_next,
            final(self).packages == old(self).packages,
            final(self).next_package == old(self).next_package,
            final(self).download_progress == old(self).download_progress,
            final(self).extract_progress == old(self).extract_progress,
            final(self).outcome == old(self).outcome,
    {
        self.log.push(String::from_str(line));
        self.status = String::from_str(line);
    }

    /// Records a terminal failure.
    fn fail(&mut self, k: FailureKind) -> (a: Action)
        ensures
            final(self).ended(InstallOutcome::Failed(k)),
            a is Finished,
            log_extends(final(self).log@, old(self).log@),
            final(self).vendor == old(self).vendor,
            final(self).os == old(self).os,
            final(self).arch == old(self).arch,
            final(self).home == old(self).home,
            final(self).requested_version == old(self).requested_version,
            final(self).install_latest == old(self).install_latest,
            final(self).python_libraries == old(self).python_libraries,
            final(self).target == old(self).target,
            final(self).buffer == old(self).buffer,
            final(self).packages == old(self).packages,
            final(self).next_package == old(self).next_package,
    {
        self.note("Installation failed.");
        self.phase = Phase::Done;
        self.outcome = Some(InstallOutcome::Failed(k));
        Action::Finished
    }

    /// Records the resolved target and asks for the existing-installation
    /// probe.
    fn to_probe(&mut self, t: ResolvedTarget) -> (a: Action)
        ensures
            final(self).probing(t@),
            final(self).probe_action(a, t.resolved_version@),
            final(self).vendor == old(self).vendor,
            final(self).os == old(self).os,
            final(self).arch == old(self).arch,
            final(self).home == old(self).home,
            final(self).requested_version == old(self).requested_version,
            final(self).install_latest == old(self).install_latest,
            final(self).python_libraries == old(self).python_libraries,
            final(self).buffer == old(self).buffer,
            log_extends(final(self).log@, old(self).log@),
    {
        self.note("Checking for existing installations...");
        let ip = install_path(self.home.as_str(), self.vendor, t.resolved_version.as_str());
        let er = String::from_str(probe_exe_rel(self.vendor, self.os));
        let arg = String::from_str(version_arg(self.vendor));
        self.target = Some(t);
        self.phase = Phase::AwaitProbe;
        self.outcome = None;
        Action::Probe { install_path: ip, exe_rel: er, arg }
    }

    /// How one resolution result advances the run: success moves to the
    /// probe for the resolved target, an error ends the run with it.
    pub open spec fn resolution_step(self, a: Action, r: Result<TargetView, ResolveError>) -> bool {
        match r {
            Ok(t) => self.probing(t) && self.probe_action(a, t.version),
            Err(e) => self.ended(InstallOutcome::Failed(FailureKind::Resolution(e))) && (
            a is Finished),
        }
    }

    /// Consumes the text a `Fetch` action brought back (`None` when the
    /// fetch failed on the network).  In the metadata phase the vendor's
    /// strategy resolves the target from it, as each strategy's resolution
    /// function describes; Node.js first collects its release directories
    /// here and then walks them one fetch at a time, taking the first
    /// directory that offers an artifact for this platform.
    pub fn on_fetched(&mut self, body: Option<&str>) -> (a: Action)
        ensures
            log_extends(final(self).log@, old(self).log@),
            old(self).phase != Phase::AwaitMetadata && old(self).phase != Phase::AwaitNodeDir
                ==> *final(self) == *old(self) && a is Finished,
            (old(self).phase == Phase::AwaitMetadata || old(self).phase == Phase::AwaitNodeDir)
                && body is None ==> final(self).ended(
                InstallOutcome::Failed(FailureKind::Resolution(ResolveError::Network)),
            ) && a is Finished,
            old(self).phase == Phase::AwaitMetadata ==> (body matches Some(b) ==> ({
                let o = *old(self);
                match o.vendor {
                    Vendor::AzulZulu => match azul_packages_of(b@) {
                        Some(ps) => final(self).resolution_step(
                            a,
                            azul_resolution(ps, o.requested_version@),
                        ),
                        None => final(self).ended(
                            InstallOutcome::Failed(
                                FailureKind::Resolution(ResolveError::BadStructure),
                            ),
                        ),
                    },
                    Vendor::Temurin => match temurin_assets_of(b@) {
                        Some(assets) => final(self).resolution_step(
                            a,
                            temurin_resolution(assets, o.requested_version@),
                        ),
                        None => final(self).ended(
                            InstallOutcome::Failed(
                                FailureKind::Resolution(ResolveError::BadStructure),
                            ),
                        ),
                    },
                    Vendor::OpenJdk => match hrefs_in(b@, "a"@) {
                        Some(hs) => final(self).resolution_step(
                            a,
                            openjdk_resolution(hs, o.os, o.requested_version@),
                        ),
                        None => final(self).ended(
                            InstallOutcome::Failed(
                                FailureKind::Resolution(ResolveError::BadStructure),
                            ),
                        ),
                    },
                    Vendor::Python => match hrefs_in(b@, python_selector()) {
                        Some(hs) => match python_latest_resolution(hs) {
                            Ok(v) => final(self).resolution_step(
                                a,
                                Ok(crate::resolve::python_target_view(v, o.os)),
                            ),
                            Err(e) => final(self).ended(
                                InstallOutcome::Failed(FailureKind::Resolution(e)),
                            ),
                        },
                        None => final(self).ended(
                            InstallOutcome::Failed(
                                FailureKind::Resolution(ResolveError::BadStructure),
                            ),
                        ),
                    },
                    Vendor::Go => match (texts_in(b@, ".toggleButton"@), hrefs_in(
                        b@,
                        ".downloadTable a"@,
                    )) {
                        (Some(ts), Some(hs)) => final(self).resolution_step(
                            a,
                            go_resolution(ts, hs, o.os, o.arch@),
                        ),
                        _ => final(self).ended(
                            InstallOutcome::Failed(
                                FailureKind::Resolution(ResolveError::BadStructure),
                            ),
                        ),
                    },
                    Vendor::NodeJs => match hrefs_in(b@, "a"@) {
                        Some(hs) => ({
                            let dirs = node_lts_dirs_of(hs);
                            if dirs.len() == 0 {
                                final(self).ended(
                                    InstallOutcome::Failed(
                                        FailureKind::Resolution(ResolveError::NoCandidate),
                                    ),
                                )
                            } else {
                                &&& final(self).phase == Phase::AwaitNodeDir
                                &&& final(self).node_dirs.deep_view() == dirs
                                &&& final(self).node_next == 0
                                &&& final(self).outcome is None
                                &&& (a matches Action::Fetch { url } && url@ == node_base_url()
                                    + dirs[0])
                            }
                        }),
                        None => final(self).ended(
                            InstallOutcome::Failed(
                                FailureKind::Resolution(ResolveError::BadStructure),
                            ),
                        ),
                    },
                    _ => a is Finished,
                }
            })),
            old(self).phase == Phase::AwaitNodeDir && old(self).node_next
                < old(self).node_dirs@.len() ==> (body matches Some(b) ==> ({
                let o = *old(self);
                match hrefs_in(b@, "a"@) {
                    Some(hs) => match node_file_pick(hs, o.os, o.arch@) {
                        Some(f) => final(self).resolution_step(
                            a,
                            Ok(node_target_view(o.node_dirs.deep_view()[o.node_next as int], f)),
                        ),
                        None => if o.node_next + 1 < o.node_dirs@.len() {
                            &&& final(self).phase == Phase::AwaitNodeDir
                            &&& final(self).node_dirs == o.node_dirs
                            &&& final(self).node_next == o.node_next + 1
                            &&& final(self).outcome is None
                            &&& (a matches Action::Fetch { url } && url@ == node_base_url()
                                + o.node_dirs.deep_view()[o.node_next + 1])
                        } else {
                            final(self).ended(
                                InstallOutcome::Failed(
                                    FailureKind::Resolution(ResolveError::NoCandidate),
                                ),
                            )
                        },
                    },
                    None => final(self).ended(
                        InstallOutcome::Failed(FailureKind::Resolution(ResolveError::BadStructure)),
                    ),
                }
            })),
    {
        match self.phase {
            Phase::AwaitMetadata => {
                let b = match body {
                    Some(b) => b,
                    None => {
                        return self.fail(FailureKind::Resolution(ResolveError::Network));
                    },
                };
                let rv = self.requested_version.clone();
                match self.vendor {
                    Vendor::AzulZulu => match resolve_azul(b, rv.as_str()) {
                        Ok(t) => self.to_probe(t),
                        Err(e) => self.fail(FailureKind::Resolution(e)),
                    },
                    Vendor::Temurin => match resolve_temurin(b, rv.as_str()) {
                        Ok(t) => self.to_probe(t),
                        Err(e) => self.fail(FailureKind::Resolution(e)),
                    },
                    Vendor::OpenJdk => match resolve_openjdk(b, self.os, rv.as_str()) {
                        Ok(t) => self.to_probe(t),
                        Err(e) => self.fail(FailureKind::Resolution(e)),
                    },
                    Vendor::Python => match python_latest_version(b) {
                        Ok(v) => {
                            let t = python_target(v.as_str(), self.os);
                            self.to_probe(t)
                        },
                        Err(e) => self.fail(FailureKind::Resolution(e)),
                    },
                    Vendor::Go => {
                        let ar = self.arch.clone();
                        match resolve_go(b, self.os, ar.as_str()) {
                            Ok(t) => self.to_probe(t),
                            Err(e) => self.fail(FailureKind::Resolution(e)),
                        }
                    },
                    Vendor::NodeJs => match node_lts_dirs(b) {
                        Ok(dirs) => {
                            if dirs.len() == 0 {
                                self.fail(FailureKind::Resolution(ResolveError::NoCandidate))
                            } else {
                                let mut url = String::from_str("https://nodejs.org/dist/latest-lts/");
                                url.append(dirs[0].as_str());
                                self.node_dirs = dirs;
                                self.node_next = 0;
                                self.phase = Phase::AwaitNodeDir;
                                self.outcome = None;
                                Action::Fetch { url }
                            }
                        },
                        Err(e) => self.fail(FailureKind::Resolution(e)),
                    },
                    _ => Action::Finished,
                }
            },
            Phase::AwaitNodeDir => {
                let b = match body {
                    Some(b) => b,
                    None => {
                        return self.fail(FailureKind::Resolution(ResolveError::Network));
                    },
                };
                if self.node_next >= self.node_dirs.len() {
                    return Action::Finished;
                }
                let ar = self.arch.clone();
                match node_pick_file(b, self.os, ar.as_str()) {
                    Ok(Some(f)) => {
                        let t = node_target(self.node_dirs[self.node_next].as_str(), f.as_str());
                        self.to_probe(t)
                    },
                    Ok(None) => {
                        if self.node_next + 1 < self.node_dirs.len() {
                            self.node_next = self.node_next + 1;
                            self.outcome = None;
                            let mut url = String::from_str("https://nodejs.org/dist/latest-lts/");
                            url.append(self.node_dirs[self.node_next].as_str());
                            Action::Fetch { url }
                        } else {
                            self.fail(FailureKind::Resolution(ResolveError::NoCandidate))
                        }
                    },
                    Err(e) => self.fail(FailureKind::Resolution(e)),
                }
            },
            _ => Action::Finished,
        }
    }

    /// The version an existing installation must satisfy: the resolved
    /// version when "latest" was requested, the requested text otherwise.
    pub open spec fn check_version_of(self, t: ResolvedTarget) -> Seq<char> {
        if self.install_latest {
            t.resolved_version@
        } else {
            self.requested_version@
        }
    }

    /// Consumes the existing-installation probe's report.  A compatible
    /// installation short-circuits the whole run as a success, with no
    /// download; anything less — a missing path, a missing executable, a
    /// probe that could not run, an incompatible version — proceeds to a
    /// fresh download over the same path.
    pub fn on_probed(
        &mut self,
        path_exists: bool,
        exe_exists: bool,
        output: Option<&CommandOutput>,
    ) -> (a: Action)
        ensures
            log_extends(final(self).log@, old(self).log@),
            old(self).phase != Phase::AwaitProbe || old(self).target is None ==> *final(self)
                == *old(self) && a is Finished,
            old(self).phase == Phase::AwaitProbe ==> (old(self).target matches Some(t) ==> ({
                let o = *old(self);
                let installed = path_exists && exe_exists && (match output {
                    Some(out) => compatible(
                        version_output_of(o.vendor, out.stdout@, out.stderr@),
                        o.check_version_of(t),
                    ),
                    None => false,
                });
                if installed {
                    &&& final(self).ended(InstallOutcome::Success)
                    &&& a is Finished
                    &&& final(self).download_progress == (Progress { num: 1u64, den: 1u64 })
                    &&& final(self).extract_progress == (Progress { num: 1u64, den: 1u64 })
                } else {
                    &&& final(self).phase == Phase::AwaitDownloadStart
                    &&& final(self).outcome is None
                    &&& final(self).target == old(self).target
                    &&& final(self).home == old(self).home
                    &&& final(self).vendor == old(self).vendor
                    &&& final(self).os == old(self).os
                    &&& final(self).install_latest == old(self).install_latest
                    &&& final(self).requested_version == old(self).requested_version
                    &&& final(self).python_libraries == old(self).python_libraries
                    &&& (a matches Action::StartDownload { url } && url@ == t.download_url@)
                }
            })),
    {
        if !matches!(self.phase, Phase::AwaitProbe) {
            return Action::Finished;
        }
        let (url, check_version) = match &self.target {
            Some(t) => (
                t.download_url.clone(),
                if self.install_latest {
                    t.resolved_version.clone()
                } else {
                    self.requested_version.clone()
                },
            ),
            None => {
                return Action::Finished;
            },
        };
        match check_existing(self.vendor, path_exists, exe_exists, output, check_version.as_str()) {
            InstallCheck::Installed => {
                self.note("A compatible installation is already in place.");
                self.phase = Phase::Done;
                self.outcome = Some(InstallOutcome::Success);
                self.download_progress = Progress { num: 1, den: 1 };
                self.extract_progress = Progress { num: 1, den: 1 };
                Action::Finished
            },
            InstallCheck::NotInstalled => {
                self.phase = Phase::AwaitDownloadStart;
                self.outcome = None;
                Action::StartDownload { url }
            },
        }
    }

    /// Consumes the report that the archive download was opened (or could
    /// not be).  An absent content length counts as zero, which keeps the
    /// progress indeterminate.
    pub fn on_download_started(&mut self, opened: bool, content_length: Option<u64>) -> (a: Action)
        ensures
            log_extends(final(self).log@, old(self).log@),
            old(self).phase != Phase::AwaitDownloadStart ==> *final(self) == *old(self) && (
            a is Finished),
            old(self).phase == Phase::AwaitDownloadStart && !opened ==> final(self).ended(
                InstallOutcome::Failed(FailureKind::Download),
            ) && a is Finished,
            old(self).phase == Phase::AwaitDownloadStart && opened ==> ({
                &&& final(self).phase == Phase::Downloading
                &&& final(self).outcome is None
                &&& final(self).buffer@ == Seq::<u8>::empty()
                &&& final(self).content_total == (match content_length {
                    Some(n) => n,
                    None => 0u64,
                })
                &&& final(self).target == old(self).target
                &&& final(self).home == old(self).home
                &&& final(self).vendor == old(self).vendor
                &&& final(self).os == old(self).os
                &&& a is ReadChunk
            }),
    {
        if !matches!(self.phase, Phase::AwaitDownloadStart) {
            return Action::Finished;
        }
        if !opened {
            return self.fail(FailureKind::Download);
        }
        self.note("Downloading...");
        self.buffer = Vec::new();
        self.content_total = match content_length {
            Some(n) => n,
            None => 0,
        };
        let t = DownloadTracker::new(content_length);
        self.download_progress = t.progress();
        self.phase = Phase::Downloading;
        self.outcome = None;
        Action::ReadChunk
    }

    /// Moves a finished download on: the Rust toolchain's raw installer is
    /// handed to the caller to run; everything else is listed as an
    /// archive and unpacked entry by entry.
    fn after_download(&mut self) -> (a: Action)
        requires
            old(self).target is Some,
        ensures
            ({
                let o = *old(self);
                let t = o.target->Some_0;
                if o.vendor == Vendor::RustToolchain {
                    &&& final(self).phase == Phase::AwaitRustInstaller
                    &&& final(self).outcome is None
                    &&& final(self).buffer == o.buffer
                    &&& (a matches Action::RunRustInstaller { script_name } && script_name@
                        == t.archive_name@)
                } else {
                    match entries_listing_of(o.buffer@, t.kind, t.archive_name@) {
                        Err(e) => final(self).ended(
                            InstallOutcome::Failed(FailureKind::Extraction(e)),
                        ) && a is Finished,
                        Ok(es) => if es.len() == 0 {
                            &&& final(self).phase == Phase::AwaitEnv
                            &&& final(self).outcome is None
                            &&& final(self).env_action(a, t.resolved_version@)
                        } else {
                            &&& final(self).phase == Phase::Extracting
                            &&& final(self).outcome is None
                            &&& final(self).entries@.map_values(|e: ArchiveEntry| e@) == es
                            &&& final(self).next_entry == 0
                            &&& final(self).top_dir.deep_view() == top_dir_of(es)
                            &&& final(self).buffer == o.buffer
                            &&& final(self).target == o.target
                            &&& final(self).home == o.home
                            &&& (a matches Action::WriteEntry { index, rel_path, is_dir }
                                && index == 0 && rel_path@ == es[0].0 && is_dir == es[0].1)
                        },
                    }
                }
            }),
            final(self).vendor == old(self).vendor,
            final(self).os == old(self).os,
            log_extends(final(self).log@, old(self).log@),
    {
        if matches!(self.vendor, Vendor::RustToolchain) {
            let name = match &self.target {
                Some(t) => t.archive_name.clone(),
                None => String::new(),
            };
            self.note("Running the rustup installer...");
            self.phase = Phase::AwaitRustInstaller;
            self.outcome = None;
            return Action::RunRustInstaller { script_name: name };
        }
        let (kind, name, version) = match &self.target {
            Some(t) => (t.kind, t.archive_name.clone(), t.resolved_version.clone()),
            None => {
                return Action::Finished;
            },
        };
        match list_archive_entries(&self.buffer, kind, name.as_str()) {
            Err(e) => self.fail(FailureKind::Extraction(e)),
            Ok(es) => {
                if es.len() == 0 {
                    self.phase = Phase::AwaitEnv;
                    self.outcome = None;
                    self.to_env(version.as_str())
                } else {
                    let first_path = es[0].path.clone();
                    let first_dir = es[0].is_dir;
                    self.note("Extracting files, almost there...");
                    self.top_dir = detect_top_dir(&es);
                    self.entries = es;
                    self.next_entry = 0;
                    self.phase = Phase::Extracting;
                    self.outcome = None;
                    Action::WriteEntry { index: 0, rel_path: first_path, is_dir: first_dir }
                }
            },
        }
    }

    /// What an environment action must apply for the given resolved
    /// version.
    pub open spec fn env_action(self, a: Action, version: Seq<char>) -> bool {
        a matches Action::ApplyEnv { config } && config.vars.deep_view() == env_vars_of(
            self.vendor,
            install_path_of(self.home@, self.vendor, version),
        ) && config.path_prefixes.deep_view() == env_paths_of(
            self.vendor,
            install_path_of(self.home@, self.vendor, version),
            self.os,
        ) && config.manual_note == (self.vendor != Vendor::RustToolchain)
    }

    /// Builds the environment action for the given resolved version.
    fn to_env(&mut self, version: &str) -> (a: Action)
        ensures
            *final(self) == *old(self),
            old(self).env_action(a, version@),
    {
        let ip = install_path(self.home.as_str(), self.vendor, version);
        let config = configure(self.vendor, ip.as_str(), self.os);
        Action::ApplyEnv { config }
    }

    /// Consumes one download chunk.  Cancellation observed here discards
    /// the bytes read so far and ends the run as cancelled; an empty chunk
    /// is the end of the stream; anything else is appended and the next
    /// chunk is asked for.
    pub fn on_chunk(&mut self, cancelled: bool, data: Option<&Vec<u8>>) -> (a: Action)
        ensures
            log_extends(final(self).log@, old(self).log@),
            old(self).phase != Phase::Downloading ==> *final(self) == *old(self) && a is Finished,
            old(self).phase == Phase::Downloading && cancelled ==> final(self).ended(
                InstallOutcome::Cancelled,
            ) && a is Finished && final(self).buffer@ == Seq::<u8>::empty(),
            old(self).phase == Phase::Downloading && !cancelled && data is None ==> final(self).ended(InstallOutcome::Failed(FailureKind::Download)) && a is Finished,
            old(self).phase == Phase::Downloading && !cancelled && old(self).target is Some ==> (
            data matches Some(d) ==> ({
                let o = *old(self);
                let t = o.target->Some_0;
                if d@.len() == 0 {
                    if o.vendor == Vendor::RustToolchain {
                        &&& final(self).phase == Phase::AwaitRustInstaller
                        &&& final(self).outcome is None
                        &&& (a matches Action::RunRustInstaller { script_name } && script_name@
                            == t.archive_name@)
                    } else {
                        match entries_listing_of(o.buffer@, t.kind, t.archive_name@) {
                            Err(e) => final(self).ended(
                                InstallOutcome::Failed(FailureKind::Extraction(e)),
                            ) && a is Finished,
                            Ok(es) => if es.len() == 0 {
                                final(self).phase == Phase::AwaitEnv && final(self).env_action(
                                    a,
                                    t.resolved_version@,
                                )
                            } else {
                                &&& final(self).phase == Phase::Extracting
                                &&& final(self).entries@.map_values(|e: ArchiveEntry| e@) == es
                                &&& final(self).next_entry == 0
                                &&& final(self).top_dir.deep_view() == top_dir_of(es)
                                &&& (a matches Action::WriteEntry { index, rel_path, is_dir }
                                    && index == 0 && rel_path@ == es[0].0 && is_dir == es[0].1)
                            },
                        }
                    }
                } else {
                    &&& final(self).phase == Phase::Downloading
                    &&& final(self).outcome is None
                    &&& final(self).buffer@ == o.buffer@ + d@
                    &&& final(self).target == o.target
                    &&& final(self).content_total == o.content_total
                    &&& final(self).download_progress == crate::download::capped_progress(
                        (o.buffer@.len() + d@.len()) as u64,
                        o.content_total,
                    )
                    &&& final(self).download_progress.num <= final(self).download_progress.den
                    &&& a is ReadChunk
                }
            })),
    {
        if !matches!(self.phase, Phase::Downloading) {
            return Action::Finished;
        }
        if cancelled {
            self.note("Installation cancelled.");
            self.buffer = Vec::new();
            self.phase = Phase::Done;
            self.outcome = Some(InstallOutcome::Cancelled);
            return Action::Finished;
        }
        let d = match data {
            Some(d) => d,
            None => {
                return self.fail(FailureKind::Download);
            },
        };
        if d.len() == 0 {
            if self.target.is_none() {
                return Action::Finished;
            }
            return self.after_download();
        }
        let ghost old_buf = self.buffer@;
        let mut k: usize = 0;
        while k < d.len()
            invariant
                k <= d@.len(),
                self.buffer@ == old_buf + d@.take(k as int),
                self.phase == Phase::Downloading,
                self.target == old(self).target,
                self.content_total == old(self).content_total,
                self.log == old(self).log,
                old_buf == old(self).buffer@,
            decreases d@.len() - k,
        {
            self.buffer.push(d[k]);
            proof {
                assert(old_buf + d@.take(k + 1) =~= (old_buf + d@.take(k as int)).push(
                    d@[k as int],
                ));
            }
            k += 1;
        }
        proof {
            assert(old_buf + d@.take(d@.len() as int) =~= old_buf + d@);
        }
        let received = self.buffer.len() as u64;
        let t = DownloadTracker { total: self.content_total, received };
        self.download_progress = t.progress();
        self.outcome = None;
        Action::ReadChunk
    }

    /// Consumes one written archive entry's report.  Cancellation observed
    /// here leaves the target directory partially written and ends the run
    /// as cancelled; when the last entry is written, a detected wrapper is
    /// flattened, else the environment record is produced.
    pub fn on_entry_written(&mut self, cancelled: bool, ok: bool) -> (a: Action)
        ensures
            log_extends(final(self).log@, old(self).log@),
            old(self).phase != Phase::Extracting || old(self).target is None || old(self).next_entry >= old(self).entries@.len() ==> *final(self) == *old(self) && (
            a is Finished),
            old(self).phase == Phase::Extracting && old(self).target is Some && old(self).next_entry < old(self).entries@.len() ==> ({
                let o = *old(self);
                let t = o.target->Some_0;
                if cancelled {
                    final(self).ended(InstallOutcome::Cancelled) && a is Finished
                } else if !ok {
                    final(self).ended(InstallOutcome::Failed(FailureKind::Extraction(
                        ExtractError::Io,
                    ))) && a is Finished
                } else if o.next_entry + 1 < o.entries@.len() {
                    &&& final(self).phase == Phase::Extracting
                    &&& final(self).outcome is None
                    &&& final(self).entries == o.entries
                    &&& final(self).next_entry == o.next_entry + 1
                    &&& final(self).top_dir == o.top_dir
                    &&& final(self).target == o.target
                    &&& (a matches Action::WriteEntry { index, rel_path, is_dir } && index
                        == o.next_entry + 1 && rel_path@ == o.entries@[o.next_entry + 1].path@
                        && is_dir == o.entries@[o.next_entry + 1].is_dir)
                } else {
                    match o.top_dir {
                        Some(w) => {
                            &&& final(self).phase == Phase::AwaitFlatten
                            &&& final(self).outcome is None
                            &&& final(self).target == o.target
                            &&& (a matches Action::Flatten { wrapper } && wrapper@ == w@)
                        },
                        None => {
                            &&& final(self).phase == Phase::AwaitEnv
                            &&& final(self).outcome is None
                            &&& final(self).target == o.target
                            &&& final(self).env_action(a, t.resolved_version@)
                        },
                    }
                }
            }),
            old(self).phase == Phase::Extracting && old(self).target is Some && old(
                self,
            ).next_entry < old(self).entries@.len() && !cancelled && ok ==> ({
                let o = *old(self);
                let t = o.target->Some_0;
                let written = o.next_entry + 1;
                if t.kind == ArchiveKind::Zip {
                    final(self).extract_progress == (Progress {
                        num: written as u64,
                        den: o.entries@.len() as u64,
                    })
                } else {
                    final(self).extract_progress == (Progress {
                        num: if written <= spec_tar_entry_estimate() {
                            written as u64
                        } else {
                            spec_tar_entry_estimate()
                        },
                        den: spec_tar_entry_estimate(),
                    })
                }
            }),
    {
        if !matches!(self.phase, Phase::Extracting) {
            return Action::Finished;
        }
        if self.next_entry >= self.entries.len() {
            return Action::Finished;
        }
        let version = match &self.target {
            Some(t) => t.resolved_version.clone(),
            None => {
                return Action::Finished;
            },
        };
        if cancelled {
            self.note("Installation cancelled.");
            self.phase = Phase::Done;
            self.outcome = Some(InstallOutcome::Cancelled);
            return Action::Finished;
        }
        if !ok {
            return self.fail(FailureKind::Extraction(ExtractError::Io));
        }
        let total = self.entries.len();
        let written = self.next_entry + 1;
        let zip_kind = match &self.target {
            Some(t) => matches!(t.kind, ArchiveKind::Zip),
            None => false,
        };
        if zip_kind {
            self.extract_progress = crate::archive::zip_progress(written, total);
        } else {
            self.extract_progress = tar_progress(written as u64);
        }
        if written < total {
            self.next_entry = written;
            self.outcome = None;
            let rel_path = self.entries[written].path.clone();
            let is_dir = self.entries[written].is_dir;
            Action::WriteEntry { index: written, rel_path, is_dir }
        } else {
            let wrapper = match &self.top_dir {
                Some(w) => Some(w.clone()),
                None => None,
            };
            match wrapper {
                Some(w) => {
                    self.phase = Phase::AwaitFlatten;
                    self.outcome = None;
                    Action::Flatten { wrapper: w }
                },
                None => {
                    self.phase = Phase::AwaitEnv;
                    self.outcome = None;
                    self.to_env(version.as_str())
                },
            }
        }
    }

    /// Consumes the flattening report: the wrapper's contents were moved
    /// up and the wrapper removed, or that failed.
    pub fn on_flattened(&mut self, ok: bool) -> (a: Action)
        ensures
            log_extends(final(self).log@, old(self).log@),
            old(self).phase != Phase::AwaitFlatten || old(self).target is None ==> *final(self)
                == *old(self) && a is Finished,
            old(self).phase == Phase::AwaitFlatten && !ok ==> (old(self).target matches Some(t)
                ==> final(self).ended(
                InstallOutcome::Failed(FailureKind::Extraction(ExtractError::Io)),
            ) && a is Finished),
            old(self).phase == Phase::AwaitFlatten && ok ==> (old(self).target matches Some(t)
                ==> ({
                &&& final(self).phase == Phase::AwaitEnv
                &&& final(self).outcome is None
                &&& final(self).target == old(self).target
                &&& final(self).env_action(a, t.resolved_version@)
            })),
    {
        if !matches!(self.phase, Phase::AwaitFlatten) {
            return Action::Finished;
        }
        let version = match &self.target {
            Some(t) => t.resolved_version.clone(),
            None => {
                return Action::Finished;
            },
        };
        if !ok {
            return self.fail(FailureKind::Extraction(ExtractError::Io));
        }
        self.phase = Phase::AwaitEnv;
        self.outcome = None;
        self.to_env(version.as_str())
    }

    /// What a verify action must run for the given resolved version.
    pub open spec fn verify_action(self, a: Action, version: Seq<char>) -> bool {
        a matches Action::RunVerify { install_path: ip, exe_rel: er, arg } && ip@
            == install_path_of(self.home@, self.vendor, version) && er@ == probe_exe_rel_of(
            self.vendor,
            self.os,
        ) && arg@ == version_arg_of(self.vendor)
    }

    /// Builds the verify action for the given resolved version.
    fn to_verify(&mut self, version: &str) -> (a: Action)
        ensures
            final(self).phase == Phase::AwaitVerify,
            final(self).outcome is None,
            final(self).verify_action(a, version@),
            final(self).vendor == old(self).vendor,
            final(self).os == old(self).os,
            final(self).home == old(self).home,
            final(self).target == old(self).target,
            final(self).requested_version == old(self).requested_version,
            final(self).python_libraries == old(self).python_libraries,
            final(self).install_latest == old(self).install_latest,
            final(self).next_package == old(self).next_package,
            final(self).packages == old(self).packages,
            log_extends(final(self).log@, old(self).log@),
    {
        self.note("Verifying the installation...");
        let ip = install_path(self.home.as_str(), self.vendor, version);
        let er = String::from_str(probe_exe_rel(self.vendor, self.os));
        let arg = String::from_str(version_arg(self.vendor));
        self.phase = Phase::AwaitVerify;
        self.outcome = None;
        Action::RunVerify { install_path: ip, exe_rel: er, arg }
    }

    /// Consumes the environment report and asks for verification.
    pub fn on_env_applied(&mut self) -> (a: Action)
        ensures
            log_extends(final(self).log@, old(self).log@),
            old(self).phase != Phase::AwaitEnv || old(self).target is None ==> *final(self)
                == *old(self) && a is Finished,
            old(self).phase == Phase::AwaitEnv ==> (old(self).target matches Some(t) ==> ({
                &&& final(self).phase == Phase::AwaitVerify
                &&& final(self).outcome is None
                &&& final(self).target == old(self).target
                &&& final(self).verify_action(a, t.resolved_version@)
            })),
    {
        if !matches!(self.phase, Phase::AwaitEnv) {
            return Action::Finished;
        }
        let version = match &self.target {
            Some(t) => t.resolved_version.clone(),
            None => {
                return Action::Finished;
            },
        };
        self.to_verify(version.as_str())
    }

    /// Consumes the rustup installer's report.  Its own configuration
    /// manages the shell, so a successful run goes straight to
    /// verification.
    pub fn on_rust_installer(&mut self, output: Option<&CommandOutput>) -> (a: Action)
        ensures
            log_extends(final(self).log@, old(self).log@),
            old(self).phase != Phase::AwaitRustInstaller || old(self).target is None ==> *final(self) == *old(self) && a is Finished,
            old(self).phase == Phase::AwaitRustInstaller ==> (old(self).target matches Some(t)
                ==> ({
                let ran_ok = match output {
                    Some(out) => out.status_ok,
                    None => false,
                };
                if ran_ok {
                    &&& final(self).phase == Phase::AwaitVerify
                    &&& final(self).outcome is None
                    &&& final(self).verify_action(a, t.resolved_version@)
                } else {
                    final(self).ended(InstallOutcome::Failed(FailureKind::RustInstallerFailed)) && (
                    a is Finished)
                }
            })),
    {
        if !matches!(self.phase, Phase::AwaitRustInstaller) {
            return Action::Finished;
        }
        let version = match &self.target {
            Some(t) => t.resolved_version.clone(),
            None => {
                return Action::Finished;
            },
        };
        let ran_ok = match output {
            Some(out) => out.status_ok,
            None => false,
        };
        if ran_ok {
            self.to_verify(version.as_str())
        } else {
            self.fail(FailureKind::RustInstallerFailed)
        }
    }

    /// Consumes the verification run's report.  The parsed version ends a
    /// non-Python run as a success; a Python run must also satisfy the
    /// requested version, and then moves on to the package-manager
    /// bootstrap — via the downloaded script on Windows, via the
    /// interpreter's built-in module elsewhere.
    pub fn on_verified(&mut self, output: Option<&CommandOutput>) -> (a: Action)
        ensures
            log_extends(final(self).log@, old(self).log@),
            old(self).phase != Phase::AwaitVerify || old(self).target is None ==> *final(self)
                == *old(self) && a is Finished,
            old(self).phase == Phase::AwaitVerify && old(self).target is Some ==> ({
                let o = *old(self);
                let ran_ok = match output {
                    Some(out) => out.status_ok,
                    None => false,
                };
                if !ran_ok {
                    final(self).ended(InstallOutcome::Failed(FailureKind::VerificationFailed)) && (
                    a is Finished)
                } else {
                    let out = output->Some_0;
                    let installed = version_output_of(o.vendor, out.stdout@, out.stderr@);
                    if o.vendor != Vendor::Python {
                        &&& final(self).ended(InstallOutcome::Success)
                        &&& a is Finished
                        &&& final(self).download_progress == (Progress { num: 1u64, den: 1u64 })
                        &&& final(self).extract_progress == (Progress { num: 1u64, den: 1u64 })
                    } else if !compatible(installed, o.requested_version@) {
                        &&& final(self).ended(InstallOutcome::Failed(FailureKind::VersionMismatch))
                        &&& a is Finished
                        &&& final(self).log@[o.log@.len() as int]@ == "Python version mismatch: expected "@
                            + o.requested_version@ + ", got "@ + installed
                    } else {
                        &&& final(self).phase == Phase::AwaitPipBootstrap
                        &&& final(self).outcome is None
                        &&& final(self).packages.deep_view() == csv_items_of(o.python_libraries@)
                        &&& final(self).next_package == 0
                        &&& final(self).target == o.target
                        &&& final(self).os == o.os
                        &&& final(self).vendor == o.vendor
                        &&& (if o.os == Os::Windows {
                            a matches Action::BootstrapPipWindows { script_url } && script_url@
                                == "https://bootstrap.pypa.io/get-pip.py"@
                        } else {
                            a is RunEnsurepip
                        })
                    }
                }
            }),
    {
        if !matches!(self.phase, Phase::AwaitVerify) {
            return Action::Finished;
        }
        if self.target.is_none() {
            return Action::Finished;
        }
        let out = match output {
            Some(out) => out,
            None => {
                return self.fail(FailureKind::VerificationFailed);
            },
        };
        if !out.status_ok {
            return self.fail(FailureKind::VerificationFailed);
        }
        if !matches!(self.vendor, Vendor::Python) {
            self.note("Installation complete!");
            self.phase = Phase::Done;
            self.outcome = Some(InstallOutcome::Success);
            self.download_progress = Progress { num: 1, den: 1 };
            self.extract_progress = Progress { num: 1, den: 1 };
            return Action::Finished;
        }
        let installed = parse_version_output(self.vendor, out.stdout.as_str(), out.stderr.as_str());
        let rv = self.requested_version.clone();
        if !is_version_compatible(installed.as_str(), rv.as_str()) {
            let mut line = String::from_str("Python version mismatch: expected ");
            line.append(rv.as_str());
            line.append(", got ");
            line.append(installed.as_str());
            self.note(line.as_str());
            return self.fail(FailureKind::VersionMismatch);
        }
        let libs = self.python_libraries.clone();
        self.note("Bootstrapping the package manager...");
        self.packages = split_package_specs(libs.as_str());
        self.next_package = 0;
        self.phase = Phase::AwaitPipBootstrap;
        self.outcome = None;
        if matches!(self.os, Os::Windows) {
            Action::BootstrapPipWindows {
                script_url: String::from_str("https://bootstrap.pypa.io/get-pip.py"),
            }
        } else {
            Action::RunEnsurepip
        }
    }

    /// Consumes the package-manager bootstrap's report.  On Windows a
    /// failed bootstrap aborts the run; elsewhere a failure is tolerated —
    /// each package install will fail with its own diagnostic.  With no
    /// packages requested the run ends successfully.
    pub fn on_pip_bootstrapped(&mut self, output: Option<&CommandOutput>) -> (a: Action)
        ensures
            log_extends(final(self).log@, old(self).log@),
            old(self).phase != Phase::AwaitPipBootstrap ==> *final(self) == *old(self) && (
            a is Finished),
            old(self).phase == Phase::AwaitPipBootstrap ==> ({
                let o = *old(self);
                let ran_ok = match output {
                    Some(out) => out.status_ok,
                    None => false,
                };
                if o.os == Os::Windows && !ran_ok {
                    final(self).ended(InstallOutcome::Failed(FailureKind::PipBootstrapFailed)) && (
                    a is Finished)
                } else if o.packages@.len() == 0 {
                    &&& final(self).ended(InstallOutcome::Success)
                    &&& a is Finished
                    &&& final(self).download_progress == (Progress { num: 1u64, den: 1u64 })
                    &&& final(self).extract_progress == (Progress { num: 1u64, den: 1u64 })
                } else {
                    &&& final(self).phase == Phase::AwaitPipInstall
                    &&& final(self).outcome is None
                    &&& final(self).packages == o.packages
                    &&& final(self).next_package == 0
                    &&& (a matches Action::PipInstall { spec } && spec@ == o.packages.deep_view()[0])
                }
            }),
    {
        if !matches!(self.phase, Phase::AwaitPipBootstrap) {
            return Action::Finished;
        }
        let ran_ok = match output {
            Some(out) => out.status_ok,
            None => false,
        };
        if matches!(self.os, Os::Windows) && !ran_ok {
            return self.fail(FailureKind::PipBootstrapFailed);
        }
        if self.packages.len() == 0 {
            self.note("Installation complete!");
            self.phase = Phase::Done;
            self.outcome = Some(InstallOutcome::Success);
            self.download_progress = Progress { num: 1, den: 1 };
            self.extract_progress = Progress { num: 1, den: 1 };
            return Action::Finished;
        }
        self.note("Installing Python libraries...");
        self.next_package = 0;
        self.phase = Phase::AwaitPipInstall;
        self.outcome = None;
        let spec = self.packages[0].clone();
        Action::PipInstall { spec }
    }

    /// Consumes one package install's report.  A failed install aborts the
    /// whole run with that package; a successful one is queried for its
    /// installed version next.
    pub fn on_pip_installed(&mut self, output: Option<&CommandOutput>) -> (a: Action)
        ensures
            log_extends(final(self).log@, old(self).log@),
            old(self).phase != Phase::AwaitPipInstall || old(self).next_package >= old(
                self,
            ).packages@.len() ==> *final(self) == *old(self) && a is Finished,
            old(self).phase == Phase::AwaitPipInstall && old(self).next_package < old(
                self,
            ).packages@.len() ==> ({
                let o = *old(self);
                let ran_ok = match output {
                    Some(out) => out.status_ok,
                    None => false,
                };
                if !ran_ok {
                    &&& final(self).ended(InstallOutcome::Failed(FailureKind::PackageInstallFailed))
                    &&& a is Finished
                    &&& final(self).packages == o.packages
                    &&& final(self).next_package == o.next_package
                    &&& final(self).log@[o.log@.len() as int]@ == "Failed to install: "@
                        + o.packages.deep_view()[o.next_package as int]
                } else {
                    &&& final(self).phase == Phase::AwaitPipShow
                    &&& final(self).outcome is None
                    &&& final(self).packages == o.packages
                    &&& final(self).next_package == o.next_package
                    &&& (a matches Action::PipShow { name } && name@ == package_name_of(
                        o.packages.deep_view()[o.next_package as int],
                    ))
                }
            }),
    {
        if !matches!(self.phase, Phase::AwaitPipInstall) {
            return Action::Finished;
        }
        if self.next_package >= self.packages.len() {
            return Action::Finished;
        }
        let ran_ok = match output {
            Some(out) => out.status_ok,
            None => false,
        };
        if !ran_ok {
            let mut line = String::from_str("Failed to install: ");
            line.append(self.packages[self.next_package].as_str());
            self.note(line.as_str());
            return self.fail(FailureKind::PackageInstallFailed);
        }
        self.phase = Phase::AwaitPipShow;
        self.outcome = None;
        let name = package_name(self.packages[self.next_package].as_str());
        Action::PipShow { name }
    }

    /// Consumes one package query's report.  The reported version must
    /// satisfy the package's specifier; an incompatible version aborts the
    /// run, a compatible one moves to the next package, and after the last
    /// package the run ends successfully.
    pub fn on_pip_show(&mut self, output: Option<&CommandOutput>) -> (a: Action)
        ensures
            log_extends(final(self).log@, old(self).log@),
            old(self).phase != Phase::AwaitPipShow || old(self).next_package >= old(
                self,
            ).packages@.len() ==> *final(self) == *old(self) && a is Finished,
            old(self).phase == Phase::AwaitPipShow && old(self).next_package < old(
                self,
            ).packages@.len() ==> ({
                let o = *old(self);
                match output {
                    None => {
                        &&& final(self).ended(
                            InstallOutcome::Failed(FailureKind::PackageInstallFailed),
                        )
                        &&& a is Finished
                        &&& final(self).packages == o.packages
                        &&& final(self).next_package == o.next_package
                        &&& final(self).log@[o.log@.len() as int]@ == "Could not query package "@
                            + package_name_of(o.packages.deep_view()[o.next_package as int])
                    },
                    Some(out) => {
                        let ver = pip_show_version_of(out.stdout@);
                        let sp = o.packages.deep_view()[o.next_package as int];
                        if !compatible(ver, sp) {
                            &&& final(self).ended(
                                InstallOutcome::Failed(FailureKind::PackageIncompatible),
                            )
                            &&& a is Finished
                            &&& final(self).packages == o.packages
                            &&& final(self).next_package == o.next_package
                            &&& final(self).log@[o.log@.len() as int]@ == "Installed version "@
                                + ver + " does not satisfy "@ + sp
                        } else if o.next_package + 1 < o.packages@.len() {
                            &&& final(self).phase == Phase::AwaitPipInstall
                            &&& final(self).outcome is None
                            &&& final(self).packages == o.packages
                            &&& final(self).next_package == o.next_package + 1
                            &&& (a matches Action::PipInstall { spec } && spec@
                                == o.packages.deep_view()[o.next_package + 1])
                        } else {
                            &&& final(self).ended(InstallOutcome::Success)
                            &&& a is Finished
                            &&& final(self).download_progress == (Progress { num: 1u64, den: 1u64 })
                            &&& final(self).extract_progress == (Progress { num: 1u64, den: 1u64 })
                        }
                    },
                }
            }),
    {
        if !matches!(self.phase, Phase::AwaitPipShow) {
            return Action::Finished;
        }
        if self.next_package >= self.packages.len() {
            return Action::Finished;
        }
        let out = match output {
            Some(out) => out,
            None => {
                let name = package_name(self.packages[self.next_package].as_str());
                let mut line = String::from_str("Could not query package ");
                line.append(name.as_str());
                self.note(line.as_str());
                return self.fail(FailureKind::PackageInstallFailed);
            },
        };
        let ver = parse_pip_show_version(out.stdout.as_str());
        let sp = self.packages[self.next_package].clone();
        if !is_version_compatible(ver.as_str(), sp.as_str()) {
            let mut line = String::from_str("Installed version ");
            line.append(ver.as_str());
            line.append(" does not satisfy ");
            line.append(sp.as_str());
            self.note(line.as_str());
            return self.fail(FailureKind::PackageIncompatible);
        }
        if self.next_package + 1 < self.packages.len() {
            self.next_package = self.next_package + 1;
            self.phase = Phase::AwaitPipInstall;
            self.outcome = None;
            let spec = self.packages[self.next_package].clone();
            Action::PipInstall { spec }
        } else {
            self.note("Installation complete!");
            self.phase = Phase::Done;
            self.outcome = Some(InstallOutcome::Success);
            self.download_progress = Progress { num: 1, den: 1 };
            self.extract_progress = Progress { num: 1, den: 1 };
            Action::Finished
        }
    }
}

} // verus!
