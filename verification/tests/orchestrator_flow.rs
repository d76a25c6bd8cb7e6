use std::io::Write;

use jdkm::Vendor;
use jdkm::orchestrate::{
    Action, FailureKind, InstallOutcome, InstallRequest, Orchestrator, Phase, install_path,
    install_rel,
};
use jdkm::platform::Os;
use jdkm::probe::CommandOutput;
use jdkm::resolve::ResolveError;

fn python_request() -> InstallRequest {
    InstallRequest {
        vendor: Vendor::Python,
        version: "3.11.9".to_string(),
        install_latest: false,
        python_libraries: "numpy>=1.20.0".to_string(),
    }
}

fn ok_output(stdout: &str, stderr: &str) -> CommandOutput {
    CommandOutput { status_ok: true, stdout: stdout.to_string(), stderr: stderr.to_string() }
}

fn zip_bytes(entries: &[(&str, Option<&[u8]>)]) -> Vec<u8> {
    let mut w = zip::ZipWriter::new(std::io::Cursor::new(Vec::new()));
    let options = zip::write::SimpleFileOptions::default();
    for (name, data) in entries {
        match data {
            Some(bytes) => {
                w.start_file(*name, options).unwrap();
                w.write_all(bytes).unwrap();
            },
            None => {
                w.add_directory(*name, options).unwrap();
            },
        }
    }
    w.finish().unwrap().into_inner()
}

#[test]
fn install_paths() {
    assert_eq!(install_rel(Vendor::Python, "3.11.9"), "jdkm/python_versions/python-3.11.9");
    assert_eq!(install_rel(Vendor::RustToolchain, "stable"), ".cargo");
    assert_eq!(
        install_path("/home/u", Vendor::Go, "1"),
        "/home/u/jdkm/go_versions/go-1"
    );
    assert_eq!(install_path("/home/u", Vendor::RustToolchain, "stable"), "/home/u/.cargo");
}

#[test]
fn c_cpp_off_windows_fails_before_any_network_action() {
    let req = InstallRequest {
        vendor: Vendor::CCpp,
        version: String::new(),
        install_latest: true,
        python_libraries: String::new(),
    };
    let (o, a) = Orchestrator::start(req, Os::Linux, "x86_64", "/home/u");
    assert!(matches!(a, Action::Finished));
    assert!(matches!(o.phase, Phase::Done));
    assert!(matches!(
        o.outcome,
        Some(InstallOutcome::Failed(FailureKind::Resolution(ResolveError::UnsupportedPlatform)))
    ));
}

#[test]
fn openjdk_latest_is_refused_up_front() {
    let req = InstallRequest {
        vendor: Vendor::OpenJdk,
        version: "21".to_string(),
        install_latest: true,
        python_libraries: String::new(),
    };
    let (o, a) = Orchestrator::start(req, Os::Linux, "x86_64", "/home/u");
    assert!(matches!(a, Action::Finished));
    assert!(matches!(
        o.outcome,
        Some(InstallOutcome::Failed(FailureKind::Resolution(ResolveError::LatestUnsupported)))
    ));
}

#[test]
fn compatible_installation_short_circuits_without_download() {
    let (mut o, a) = Orchestrator::start(python_request(), Os::Windows, "x86_64", "C:/Users/u");
    match a {
        Action::Probe { install_path, exe_rel, arg } => {
            assert_eq!(install_path, "C:/Users/u/jdkm/python_versions/python-3.11.9");
            assert_eq!(exe_rel, "python.exe");
            assert_eq!(arg, "--version");
        },
        _ => panic!("expected a probe"),
    }
    let probe = ok_output("Python 3.11.9\n", "");
    let a = o.on_probed(true, true, Some(&probe));
    assert!(matches!(a, Action::Finished));
    assert!(matches!(o.outcome, Some(InstallOutcome::Success)));
    assert_eq!((o.download_progress.num, o.download_progress.den), (1, 1));
}

#[test]
fn cancellation_during_download_discards_bytes() {
    let (mut o, _) = Orchestrator::start(python_request(), Os::Windows, "x86_64", "C:/Users/u");
    let a = o.on_probed(false, false, None);
    assert!(matches!(a, Action::StartDownload { .. }));
    let a = o.on_download_started(true, Some(100));
    assert!(matches!(a, Action::ReadChunk));
    let chunk = vec![1u8, 2, 3];
    let a = o.on_chunk(false, Some(&chunk));
    assert!(matches!(a, Action::ReadChunk));
    assert_eq!(o.buffer.len(), 3);
    // The flag is observed before the next chunk: the run ends cancelled,
    // the bytes read so far are discarded, and no extraction follows.
    let a = o.on_chunk(true, Some(&chunk));
    assert!(matches!(a, Action::Finished));
    assert!(matches!(o.outcome, Some(InstallOutcome::Cancelled)));
    assert!(o.buffer.is_empty());
    assert!(matches!(o.phase, Phase::Done));
    assert_eq!(o.status, "Installation cancelled.");
}

#[test]
fn cancellation_during_extraction_reports_cancelled() {
    let (mut o, _) = Orchestrator::start(python_request(), Os::Windows, "x86_64", "C:/Users/u");
    o.on_probed(false, false, None);
    o.on_download_started(true, None);
    let data = zip_bytes(&[
        ("pydir/", None),
        ("pydir/python.exe", Some(b"mz")),
        ("pydir/license.txt", Some(b"text")),
    ]);
    let a = o.on_chunk(false, Some(&data));
    assert!(matches!(a, Action::ReadChunk));
    let empty: Vec<u8> = Vec::new();
    let a = o.on_chunk(false, Some(&empty));
    assert!(matches!(a, Action::WriteEntry { index: 0, .. }));
    // One entry lands on disk; the stop is observed before the next one.
    let a = o.on_entry_written(true, true);
    assert!(matches!(a, Action::Finished));
    assert!(matches!(o.outcome, Some(InstallOutcome::Cancelled)));
}

#[test]
fn failed_download_read_is_an_error_not_a_cancellation() {
    let (mut o, _) = Orchestrator::start(python_request(), Os::Windows, "x86_64", "C:/Users/u");
    o.on_probed(false, false, None);
    o.on_download_started(true, None);
    let a = o.on_chunk(false, None);
    assert!(matches!(a, Action::Finished));
    assert!(matches!(o.outcome, Some(InstallOutcome::Failed(FailureKind::Download))));
}

#[test]
fn python_end_to_end_on_a_clean_machine() {
    // Request: Python 3.11.9, not latest, with numpy>=1.20.0, on Windows.
    let (mut o, a) = Orchestrator::start(python_request(), Os::Windows, "x86_64", "C:/Users/u");
    assert!(matches!(a, Action::Probe { .. }));

    // Clean machine: nothing at the install path.
    let a = o.on_probed(false, false, None);
    let url = match a {
        Action::StartDownload { url } => url,
        _ => panic!("expected the download to start"),
    };
    assert_eq!(url, "https://www.python.org/ftp/python/3.11.9/python-3.11.9-embed-amd64.zip");

    // The embeddable zip arrives in two chunks, wrapped in one directory.
    let data = zip_bytes(&[
        ("pydir/", None),
        ("pydir/python.exe", Some(b"mz")),
        ("pydir/python311.dll", Some(b"mz")),
    ]);
    let a = o.on_download_started(true, Some(data.len() as u64));
    assert!(matches!(a, Action::ReadChunk));
    let (first, second) = data.split_at(data.len() / 2);
    let a = o.on_chunk(false, Some(&first.to_vec()));
    assert!(matches!(a, Action::ReadChunk));
    assert_eq!(o.download_progress.num, first.len() as u64);
    assert_eq!(o.download_progress.den, data.len() as u64);
    let a = o.on_chunk(false, Some(&second.to_vec()));
    assert!(matches!(a, Action::ReadChunk));
    let empty: Vec<u8> = Vec::new();
    let a = o.on_chunk(false, Some(&empty));

    // Extraction runs entry by entry, with exact zip progress.
    match a {
        Action::WriteEntry { index, rel_path, is_dir } => {
            assert_eq!(index, 0);
            assert_eq!(rel_path, "pydir/");
            assert!(is_dir);
        },
        _ => panic!("expected the first entry"),
    }
    let a = o.on_entry_written(false, true);
    assert!(matches!(a, Action::WriteEntry { index: 1, .. }));
    let a = o.on_entry_written(false, true);
    assert!(matches!(a, Action::WriteEntry { index: 2, .. }));
    assert_eq!((o.extract_progress.num, o.extract_progress.den), (2, 3));

    // The single wrapping directory is flattened away.
    let a = o.on_entry_written(false, true);
    match a {
        Action::Flatten { wrapper } => assert_eq!(wrapper, "pydir"),
        _ => panic!("expected flattening"),
    }

    // The environment record names PYTHON_HOME at the install path.
    let a = o.on_flattened(true);
    match a {
        Action::ApplyEnv { config } => {
            assert_eq!(config.vars.len(), 1);
            assert_eq!(config.vars[0].0, "PYTHON_HOME");
            assert_eq!(config.vars[0].1, "C:/Users/u/jdkm/python_versions/python-3.11.9");
            assert!(config.path_prefixes.is_empty());
            assert!(config.manual_note);
        },
        _ => panic!("expected the environment record"),
    }

    // Verification reports 3.11.9: compatible with the request.
    let a = o.on_env_applied();
    match a {
        Action::RunVerify { install_path, exe_rel, arg } => {
            assert_eq!(install_path, "C:/Users/u/jdkm/python_versions/python-3.11.9");
            assert_eq!(exe_rel, "python.exe");
            assert_eq!(arg, "--version");
        },
        _ => panic!("expected verification"),
    }
    let verify = ok_output("Python 3.11.9\n", "");
    let a = o.on_verified(Some(&verify));
    match a {
        Action::BootstrapPipWindows { script_url } => {
            assert_eq!(script_url, "https://bootstrap.pypa.io/get-pip.py");
        },
        _ => panic!("expected the package-manager bootstrap"),
    }

    // The bootstrap succeeds, numpy installs, and its reported version
    // satisfies the specifier.
    let pip_ok = ok_output("Successfully installed pip\n", "");
    let a = o.on_pip_bootstrapped(Some(&pip_ok));
    match a {
        Action::PipInstall { spec } => assert_eq!(spec, "numpy>=1.20.0"),
        _ => panic!("expected the package install"),
    }
    let installed = ok_output("Successfully installed numpy-1.26.4\n", "");
    let a = o.on_pip_installed(Some(&installed));
    match a {
        Action::PipShow { name } => assert_eq!(name, "numpy"),
        _ => panic!("expected the package query"),
    }
    let show = ok_output("Name: numpy\nVersion: 1.26.4\nSummary: arrays\n", "");
    let a = o.on_pip_show(Some(&show));
    assert!(matches!(a, Action::Finished));
    assert!(matches!(o.outcome, Some(InstallOutcome::Success)));
    assert_eq!((o.extract_progress.num, o.extract_progress.den), (1, 1));

    // The run's log is an append-only audit trail of what happened.
    assert_eq!(o.log.first().unwrap(), "Checking system information...");
    assert!(o.log.iter().any(|l| l == "Downloading..."));
    assert!(o.log.iter().any(|l| l == "Extracting files, almost there..."));
    assert_eq!(o.log.last().unwrap(), "Installation complete!");
    assert_eq!(o.status, "Installation complete!");
}

#[test]
fn install_twice_short_circuits_the_second_run() {
    // First run on a clean machine: not installed, so the run downloads.
    let (mut first, _) = Orchestrator::start(python_request(), Os::Windows, "x86_64", "C:/Users/u");
    let a = first.on_probed(false, false, None);
    assert!(matches!(a, Action::StartDownload { .. }));

    // Second run with the installation now present and compatible: the
    // probe short-circuits to success and no download is asked for.
    let (mut second, _) = Orchestrator::start(python_request(), Os::Windows, "x86_64", "C:/Users/u");
    let probe = ok_output("Python 3.11.9\n", "");
    let a = second.on_probed(true, true, Some(&probe));
    assert!(matches!(a, Action::Finished));
    assert!(matches!(second.outcome, Some(InstallOutcome::Success)));
}

#[test]
fn incompatible_verification_fails_the_run() {
    let (mut o, _) = Orchestrator::start(python_request(), Os::Windows, "x86_64", "C:/Users/u");
    o.on_probed(false, false, None);
    o.on_download_started(true, None);
    let data = zip_bytes(&[("python.exe", Some(b"mz"))]);
    o.on_chunk(false, Some(&data));
    let empty: Vec<u8> = Vec::new();
    let a = o.on_chunk(false, Some(&empty));
    assert!(matches!(a, Action::WriteEntry { .. }));
    // No directory entry: nothing to flatten, straight to the environment.
    let a = o.on_entry_written(false, true);
    assert!(matches!(a, Action::ApplyEnv { .. }));
    let a = o.on_env_applied();
    assert!(matches!(a, Action::RunVerify { .. }));
    let verify = ok_output("Python 3.12.0\n", "");
    let a = o.on_verified(Some(&verify));
    assert!(matches!(a, Action::Finished));
    assert!(matches!(o.outcome, Some(InstallOutcome::Failed(FailureKind::VersionMismatch))));
    // The failure names the expected and the found version.
    assert!(o.log.iter().any(|l| l == "Python version mismatch: expected 3.11.9, got 3.12.0"));
}

#[test]
fn rust_run_uses_the_raw_installer() {
    let req = InstallRequest {
        vendor: Vendor::RustToolchain,
        version: String::new(),
        install_latest: true,
        python_libraries: String::new(),
    };
    let (mut o, a) = Orchestrator::start(req, Os::Linux, "x86_64", "/home/u");
    match a {
        Action::Probe { install_path, exe_rel, arg } => {
            assert_eq!(install_path, "/home/u/.cargo");
            assert_eq!(exe_rel, "bin/rustc");
            assert_eq!(arg, "--version");
        },
        _ => panic!("expected a probe"),
    }
    let a = o.on_probed(false, false, None);
    match a {
        Action::StartDownload { url } => assert_eq!(url, "https://sh.rustup.rs"),
        _ => panic!("expected the download"),
    }
    o.on_download_started(true, None);
    let script = b"#!/bin/sh\n".to_vec();
    o.on_chunk(false, Some(&script));
    let empty: Vec<u8> = Vec::new();
    let a = o.on_chunk(false, Some(&empty));
    match a {
        Action::RunRustInstaller { script_name } => assert_eq!(script_name, "rustup-init.sh"),
        _ => panic!("expected the installer to run"),
    }
    let rustup = ok_output("info: default toolchain set to 'stable'\n", "");
    let a = o.on_rust_installer(Some(&rustup));
    assert!(matches!(a, Action::RunVerify { .. }));
    let verify = ok_output("rustc 1.80.0 (abcdef123 2024-06-01)\n", "");
    let a = o.on_verified(Some(&verify));
    assert!(matches!(a, Action::Finished));
    assert!(matches!(o.outcome, Some(InstallOutcome::Success)));
}

#[test]
fn incompatible_package_aborts_the_run() {
    let req = InstallRequest {
        vendor: Vendor::Python,
        version: "3.11.9".to_string(),
        install_latest: false,
        python_libraries: "numpy==1.99.0".to_string(),
    };
    let (mut o, _) = Orchestrator::start(req, Os::Linux, "x86_64", "/home/u");
    o.on_probed(false, false, None);
    o.on_download_started(true, None);
    // The Linux target is a source tarball: two entries under one wrapper.
    let mut b = tar::Builder::new(Vec::new());
    let mut h = tar::Header::new_gnu();
    h.set_size(0);
    h.set_entry_type(tar::EntryType::Directory);
    h.set_cksum();
    b.append_data(&mut h, "Python-3.11.9/", &[] as &[u8]).unwrap();
    let mut h = tar::Header::new_gnu();
    h.set_size(1);
    h.set_entry_type(tar::EntryType::Regular);
    h.set_cksum();
    b.append_data(&mut h, "Python-3.11.9/README", &b"r"[..]).unwrap();
    let tarball = b.into_inner().unwrap();
    let mut enc = flate2::write::GzEncoder::new(Vec::new(), flate2::Compression::default());
    enc.write_all(&tarball).unwrap();
    let data = enc.finish().unwrap();
    o.on_chunk(false, Some(&data));
    let empty: Vec<u8> = Vec::new();
    o.on_chunk(false, Some(&empty));
    o.on_entry_written(false, true);
    let a = o.on_entry_written(false, true);
    assert!(matches!(a, Action::Flatten { .. }));
    let a = o.on_flattened(true);
    assert!(matches!(a, Action::ApplyEnv { .. }));
    o.on_env_applied();
    let verify = ok_output("Python 3.11.9\n", "");
    let a = o.on_verified(Some(&verify));
    assert!(matches!(a, Action::RunEnsurepip));
    // The built-in bootstrap failing off Windows does not abort the run.
    let a = o.on_pip_bootstrapped(None);
    assert!(matches!(a, Action::PipInstall { .. }));
    let installed = ok_output("Successfully installed numpy-1.26.4\n", "");
    let a = o.on_pip_installed(Some(&installed));
    assert!(matches!(a, Action::PipShow { .. }));
    let show = ok_output("Name: numpy\nVersion: 1.26.4\n", "");
    let a = o.on_pip_show(Some(&show));
    assert!(matches!(a, Action::Finished));
    assert!(matches!(
        o.outcome,
        Some(InstallOutcome::Failed(FailureKind::PackageIncompatible))
    ));
    // The failure names the package, the found version and the specifier.
    assert!(o.log.iter().any(|l| l == "Installed version 1.26.4 does not satisfy numpy==1.99.0"));
    assert_eq!(o.packages[o.next_package], "numpy==1.99.0");
}

#[test]
fn failed_package_install_aborts_the_run() {
    let (mut o, _) = Orchestrator::start(python_request(), Os::Windows, "x86_64", "C:/Users/u");
    o.on_probed(false, false, None);
    o.on_download_started(true, None);
    let data = zip_bytes(&[("python.exe", Some(b"mz"))]);
    o.on_chunk(false, Some(&data));
    let empty: Vec<u8> = Vec::new();
    o.on_chunk(false, Some(&empty));
    let a = o.on_entry_written(false, true);
    assert!(matches!(a, Action::ApplyEnv { .. }));
    o.on_env_applied();
    let verify = ok_output("Python 3.11.9\n", "");
    o.on_verified(Some(&verify));
    let pip_ok = ok_output("ok\n", "");
    o.on_pip_bootstrapped(Some(&pip_ok));
    let failed = CommandOutput { status_ok: false, stdout: String::new(), stderr: "boom".to_string() };
    let a = o.on_pip_installed(Some(&failed));
    assert!(matches!(a, Action::Finished));
    assert!(matches!(
        o.outcome,
        Some(InstallOutcome::Failed(FailureKind::PackageInstallFailed))
    ));
    // The failure names the package, in the log and through the run state.
    assert!(o.log.iter().any(|l| l == "Failed to install: numpy>=1.20.0"));
    assert_eq!(o.packages[o.next_package], "numpy>=1.20.0");
}

#[test]
fn bad_archive_bytes_fail_extraction() {
    let (mut o, _) = Orchestrator::start(python_request(), Os::Windows, "x86_64", "C:/Users/u");
    o.on_probed(false, false, None);
    o.on_download_started(true, None);
    let garbage = vec![9u8, 9, 9];
    o.on_chunk(false, Some(&garbage));
    let empty: Vec<u8> = Vec::new();
    let a = o.on_chunk(false, Some(&empty));
    assert!(matches!(a, Action::Finished));
    assert!(matches!(
        o.outcome,
        Some(InstallOutcome::Failed(FailureKind::Extraction(jdkm::archive::ExtractError::BadArchive)))
    ));
}

#[test]
fn entry_write_failure_is_an_io_extraction_error() {
    let (mut o, _) = Orchestrator::start(python_request(), Os::Windows, "x86_64", "C:/Users/u");
    o.on_probed(false, false, None);
    o.on_download_started(true, None);
    let data = zip_bytes(&[("python.exe", Some(b"mz"))]);
    o.on_chunk(false, Some(&data));
    let empty: Vec<u8> = Vec::new();
    o.on_chunk(false, Some(&empty));
    let a = o.on_entry_written(false, false);
    assert!(matches!(a, Action::Finished));
    assert!(matches!(
        o.outcome,
        Some(InstallOutcome::Failed(FailureKind::Extraction(jdkm::archive::ExtractError::Io)))
    ));
}

#[test]
fn flatten_failure_is_an_io_extraction_error() {
    let (mut o, _) = Orchestrator::start(python_request(), Os::Windows, "x86_64", "C:/Users/u");
    o.on_probed(false, false, None);
    o.on_download_started(true, None);
    let data = zip_bytes(&[("pydir/", None), ("pydir/python.exe", Some(b"mz"))]);
    o.on_chunk(false, Some(&data));
    let empty: Vec<u8> = Vec::new();
    o.on_chunk(false, Some(&empty));
    o.on_entry_written(false, true);
    let a = o.on_entry_written(false, true);
    assert!(matches!(a, Action::Flatten { .. }));
    let a = o.on_flattened(false);
    assert!(matches!(a, Action::Finished));
    assert!(matches!(
        o.outcome,
        Some(InstallOutcome::Failed(FailureKind::Extraction(jdkm::archive::ExtractError::Io)))
    ));
}

#[test]
fn failed_rustup_run_fails_the_installation() {
    let req = InstallRequest {
        vendor: Vendor::RustToolchain,
        version: String::new(),
        install_latest: true,
        python_libraries: String::new(),
    };
    let (mut o, _) = Orchestrator::start(req, Os::Linux, "x86_64", "/home/u");
    o.on_probed(false, false, None);
    o.on_download_started(true, None);
    let script = b"#!/bin/sh\n".to_vec();
    o.on_chunk(false, Some(&script));
    let empty: Vec<u8> = Vec::new();
    let a = o.on_chunk(false, Some(&empty));
    assert!(matches!(a, Action::RunRustInstaller { .. }));
    let failed = CommandOutput { status_ok: false, stdout: String::new(), stderr: String::new() };
    let a = o.on_rust_installer(Some(&failed));
    assert!(matches!(a, Action::Finished));
    assert!(matches!(
        o.outcome,
        Some(InstallOutcome::Failed(FailureKind::RustInstallerFailed))
    ));
}

#[test]
fn unrunnable_verification_fails_the_run() {
    let (mut o, _) = Orchestrator::start(python_request(), Os::Windows, "x86_64", "C:/Users/u");
    o.on_probed(false, false, None);
    o.on_download_started(true, None);
    let data = zip_bytes(&[("python.exe", Some(b"mz"))]);
    o.on_chunk(false, Some(&data));
    let empty: Vec<u8> = Vec::new();
    o.on_chunk(false, Some(&empty));
    let a = o.on_entry_written(false, true);
    assert!(matches!(a, Action::ApplyEnv { .. }));
    o.on_env_applied();
    let a = o.on_verified(None);
    assert!(matches!(a, Action::Finished));
    assert!(matches!(
        o.outcome,
        Some(InstallOutcome::Failed(FailureKind::VerificationFailed))
    ));
}

#[test]
fn failed_windows_pip_bootstrap_aborts_the_run() {
    let (mut o, _) = Orchestrator::start(python_request(), Os::Windows, "x86_64", "C:/Users/u");
    o.on_probed(false, false, None);
    o.on_download_started(true, None);
    let data = zip_bytes(&[("python.exe", Some(b"mz"))]);
    o.on_chunk(false, Some(&data));
    let empty: Vec<u8> = Vec::new();
    o.on_chunk(false, Some(&empty));
    o.on_entry_written(false, true);
    o.on_env_applied();
    let verify = ok_output("Python 3.11.9\n", "");
    let a = o.on_verified(Some(&verify));
    assert!(matches!(a, Action::BootstrapPipWindows { .. }));
    let a = o.on_pip_bootstrapped(None);
    assert!(matches!(a, Action::Finished));
    assert!(matches!(
        o.outcome,
        Some(InstallOutcome::Failed(FailureKind::PipBootstrapFailed))
    ));
}

#[test]
fn over_delivering_stream_reports_capped_progress() {
    let (mut o, _) = Orchestrator::start(python_request(), Os::Windows, "x86_64", "C:/Users/u");
    o.on_probed(false, false, None);
    // The server announces two bytes but delivers five.
    let a = o.on_download_started(true, Some(2));
    assert!(matches!(a, Action::ReadChunk));
    let chunk = vec![0u8; 5];
    let a = o.on_chunk(false, Some(&chunk));
    assert!(matches!(a, Action::ReadChunk));
    assert_eq!((o.download_progress.num, o.download_progress.den), (2, 2));
}

#[test]
fn unqueryable_package_names_the_package() {
    let (mut o, _) = Orchestrator::start(python_request(), Os::Windows, "x86_64", "C:/Users/u");
    o.on_probed(false, false, None);
    o.on_download_started(true, None);
    let data = zip_bytes(&[("python.exe", Some(b"mz"))]);
    o.on_chunk(false, Some(&data));
    let empty: Vec<u8> = Vec::new();
    o.on_chunk(false, Some(&empty));
    o.on_entry_written(false, true);
    o.on_env_applied();
    let verify = ok_output("Python 3.11.9\n", "");
    o.on_verified(Some(&verify));
    let pip_ok = ok_output("ok\n", "");
    o.on_pip_bootstrapped(Some(&pip_ok));
    let installed = ok_output("Successfully installed numpy-1.26.4\n", "");
    o.on_pip_installed(Some(&installed));
    let a = o.on_pip_show(None);
    assert!(matches!(a, Action::Finished));
    assert!(matches!(
        o.outcome,
        Some(InstallOutcome::Failed(FailureKind::PackageInstallFailed))
    ));
    assert!(o.log.iter().any(|l| l == "Could not query package numpy"));
}
