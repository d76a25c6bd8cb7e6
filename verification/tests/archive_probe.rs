use std::io::Write;

use jdkm::Vendor;
use jdkm::archive::{
    ArchiveEntry, ExtractError, detect_top_dir, first_component, flattened_path,
    list_archive_entries, tar_progress, zip_progress,
};
use jdkm::platform::Os;
use jdkm::probe::{
    CommandOutput, InstallCheck, check_existing, parse_version_output, probe_exe_rel, version_arg,
};
use jdkm::pypkg::{package_name, parse_pip_show_version, split_package_specs};
use jdkm::resolve::ArchiveKind;

fn zip_bytes(entries: &[(&str, Option<&[u8]>)]) -> Vec<u8> {
    let mut w = zip::ZipWriter::new(std::io::Cursor::new(Vec::new()));
    let options = zip::write::SimpleFileOptions::default();
    for (name, data) in entries {
        match data {
            Some(bytes) => {
                w.start_file(*name, options).unwrap();
                w.write_all(bytes).unwrap();
            },
            None => {
                w.add_directory(*name, options).unwrap();
            },
        }
    }
    w.finish().unwrap().into_inner()
}

fn tar_bytes(entries: &[(&str, Option<&[u8]>)]) -> Vec<u8> {
    let mut b = tar::Builder::new(Vec::new());
    for (name, data) in entries {
        let mut h = tar::Header::new_gnu();
        match data {
            Some(bytes) => {
                h.set_size(bytes.len() as u64);
                h.set_entry_type(tar::EntryType::Regular);
                h.set_cksum();
                b.append_data(&mut h, *name, *bytes).unwrap();
            },
            None => {
                h.set_size(0);
                h.set_entry_type(tar::EntryType::Directory);
                h.set_cksum();
                b.append_data(&mut h, *name, &[] as &[u8]).unwrap();
            },
        }
    }
    b.into_inner().unwrap()
}

#[test]
fn zip_listing_reports_entries_in_order() {
    let data = zip_bytes(&[
        ("foo-1.0/", None),
        ("foo-1.0/bin/", None),
        ("foo-1.0/bin/x", Some(b"#!x")),
    ]);
    let es = list_archive_entries(&data, ArchiveKind::Zip, "a.zip").unwrap();
    let names: Vec<&str> = es.iter().map(|e| e.path.as_str()).collect();
    assert_eq!(names, vec!["foo-1.0/", "foo-1.0/bin/", "foo-1.0/bin/x"]);
    assert!(es[0].is_dir && es[1].is_dir && !es[2].is_dir);
}

#[test]
fn zip_listing_rejects_garbage() {
    let garbage = vec![1u8, 2, 3, 4];
    assert!(matches!(
        list_archive_entries(&garbage, ArchiveKind::Zip, "a.zip"),
        Err(ExtractError::BadArchive)
    ));
}

#[test]
fn tar_gz_listing() {
    let tar = tar_bytes(&[("go/", None), ("go/bin/go", Some(b"elf"))]);
    let mut enc = flate2::write::GzEncoder::new(Vec::new(), flate2::Compression::default());
    enc.write_all(&tar).unwrap();
    let data = enc.finish().unwrap();
    let es = list_archive_entries(&data, ArchiveKind::TarGz, "go.tar.gz").unwrap();
    let names: Vec<&str> = es.iter().map(|e| e.path.as_str()).collect();
    assert_eq!(names, vec!["go/", "go/bin/go"]);
    assert!(es[0].is_dir && !es[1].is_dir);
}

#[test]
fn tar_xz_listing() {
    let tar = tar_bytes(&[("node/", None), ("node/bin/node", Some(b"elf"))]);
    let mut enc = xz2::write::XzEncoder::new(Vec::new(), 6);
    enc.write_all(&tar).unwrap();
    let data = enc.finish().unwrap();
    let es = list_archive_entries(&data, ArchiveKind::TarXz, "node.tar.xz").unwrap();
    assert_eq!(es.len(), 2);
    assert_eq!(es[1].path, "node/bin/node");
}

#[test]
fn unsupported_suffix_is_rejected() {
    let data = vec![0u8; 8];
    assert!(matches!(
        list_archive_entries(&data, ArchiveKind::TarGz, "weird.rar"),
        Err(ExtractError::UnsupportedFormat)
    ));
    assert!(matches!(
        list_archive_entries(&data, ArchiveKind::RawExecutable, "rustup-init.sh"),
        Err(ExtractError::UnsupportedFormat)
    ));
}

#[test]
fn top_dir_detection() {
    let es = vec![
        ArchiveEntry { path: "foo-1.0/".to_string(), is_dir: true },
        ArchiveEntry { path: "foo-1.0/bin/x".to_string(), is_dir: false },
    ];
    assert_eq!(detect_top_dir(&es).unwrap(), "foo-1.0");
    let no_dirs = vec![ArchiveEntry { path: "x".to_string(), is_dir: false }];
    assert!(detect_top_dir(&no_dirs).is_none());
}

#[test]
fn first_components() {
    assert_eq!(first_component("foo-1.0/bin/x").unwrap(), "foo-1.0");
    assert_eq!(first_component("foo-1.0/").unwrap(), "foo-1.0");
    assert!(first_component("").is_none());
}

#[test]
fn flattening_removes_single_wrapper() {
    // A zip holding only foo-1.0/bin/x: after normalization bin/x stands at
    // the top and nothing named foo-1.0 remains.
    let entries = ["foo-1.0/", "foo-1.0/bin/", "foo-1.0/bin/x"];
    let flattened: Vec<String> = entries
        .iter()
        .filter_map(|p| flattened_path(p, "foo-1.0"))
        .collect();
    assert_eq!(flattened, vec!["bin/", "bin/x"]);
    assert!(flattened.iter().all(|p| p != "foo-1.0" && !p.starts_with("foo-1.0/")));
    // A path outside the wrapper is untouched.
    assert_eq!(flattened_path("other.txt", "foo-1.0").unwrap(), "other.txt");
}

#[test]
fn progress_fractions() {
    let p = zip_progress(3, 12);
    assert_eq!((p.num, p.den), (3, 12));
    let p = tar_progress(250);
    assert_eq!((p.num, p.den), (250, 1000));
    // The tar estimate is capped at the whole.
    let p = tar_progress(5000);
    assert_eq!((p.num, p.den), (1000, 1000));
}

#[test]
fn version_parsing_per_vendor() {
    assert_eq!(parse_version_output(Vendor::Python, "Python 3.11.9\n", ""), "3.11.9");
    assert_eq!(
        parse_version_output(Vendor::RustToolchain, "rustc 1.80.0 (abcdef123 2024-06-01)\n", ""),
        "1.80.0"
    );
    assert_eq!(
        parse_version_output(Vendor::CCpp, "gcc (GCC) 13.2.0\nCopyright (C) 2023\n", ""),
        "13.2.0"
    );
    assert_eq!(parse_version_output(Vendor::NodeJs, "v20.11.1\n", ""), "20.11.1");
    assert_eq!(
        parse_version_output(Vendor::Go, "go version go1.22.1 linux/amd64\n", ""),
        "1.22.1"
    );
    assert_eq!(
        parse_version_output(Vendor::Temurin, "", "openjdk version \"21.0.2\"\nOpenJDK Runtime\n"),
        "21.0.2"
    );
    assert_eq!(
        parse_version_output(Vendor::AzulZulu, "", "java version \"1.8.0_391\"\n"),
        "1.8.0_391"
    );
    // No line mentions a version: the probe reports unknown.
    assert_eq!(parse_version_output(Vendor::OpenJdk, "", "garbage\n"), "unknown");
}

#[test]
fn probe_commands_per_vendor() {
    assert_eq!(probe_exe_rel(Vendor::Python, Os::Windows), "python.exe");
    assert_eq!(probe_exe_rel(Vendor::Python, Os::Linux), "bin/python3");
    assert_eq!(probe_exe_rel(Vendor::CCpp, Os::Windows), "bin/gcc.exe");
    assert_eq!(probe_exe_rel(Vendor::RustToolchain, Os::Linux), "bin/rustc");
    assert_eq!(probe_exe_rel(Vendor::NodeJs, Os::MacOs), "bin/node");
    assert_eq!(probe_exe_rel(Vendor::Go, Os::Windows), "bin/go.exe");
    assert_eq!(probe_exe_rel(Vendor::Temurin, Os::Linux), "bin/java");
    assert_eq!(version_arg(Vendor::Go), "version");
    assert_eq!(version_arg(Vendor::AzulZulu), "-version");
    assert_eq!(version_arg(Vendor::Python), "--version");
}

#[test]
fn existing_install_checks() {
    let out = CommandOutput {
        status_ok: true,
        stdout: "Python 3.11.9\n".to_string(),
        stderr: String::new(),
    };
    assert!(matches!(
        check_existing(Vendor::Python, true, true, Some(&out), "3.11.9"),
        InstallCheck::Installed
    ));
    assert!(matches!(
        check_existing(Vendor::Python, true, true, Some(&out), "3.12.0"),
        InstallCheck::NotInstalled
    ));
    assert!(matches!(
        check_existing(Vendor::Python, false, true, Some(&out), "3.11.9"),
        InstallCheck::NotInstalled
    ));
    assert!(matches!(
        check_existing(Vendor::Python, true, false, Some(&out), "3.11.9"),
        InstallCheck::NotInstalled
    ));
    assert!(matches!(
        check_existing(Vendor::Python, true, true, None, "3.11.9"),
        InstallCheck::NotInstalled
    ));
}

#[test]
fn python_package_helpers() {
    assert_eq!(
        split_package_specs("numpy>=1.20.0, pandas==2.0.0, "),
        vec!["numpy>=1.20.0", "pandas==2.0.0"]
    );
    assert_eq!(package_name("numpy>=1.20.0"), "numpy");
    assert_eq!(package_name("pandas"), "pandas");
    assert_eq!(package_name("torch~=2.1"), "torch");
    assert_eq!(
        parse_pip_show_version("Name: numpy\nVersion: 1.26.4\nSummary: arrays\n"),
        "1.26.4"
    );
    assert_eq!(parse_pip_show_version("Name: numpy\n"), "unknown");
}
