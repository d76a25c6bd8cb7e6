use jdkm::listing::{node_lts_dirs, node_pick_file, node_target, python_latest_version, resolve_go,
    resolve_openjdk};
use jdkm::platform::Os;
use jdkm::resolve::{
    ArchiveKind, ResolveError, azul_query_url, classify_archive, openjdk_page_url, python_target,
    resolve_azul, resolve_c_cpp, resolve_rust, resolve_temurin, temurin_query_url,
};

#[test]
fn azul_query_urls() {
    let u = azul_query_url(Os::Linux, "x86_64", "21", false);
    assert_eq!(
        u,
        "https://api.azul.com/metadata/v1/zulu/packages?java_version=21&os=linux&arch=x64&package_type=jdk&latest=true&availability_types=ca"
    );
    let u = azul_query_url(Os::Windows, "aarch64", "21", true);
    assert_eq!(
        u,
        "https://api.azul.com/metadata/v1/zulu/packages?latest=true&availability_types=ca&os=windows&arch=aarch64&package_type=jdk"
    );
}

#[test]
fn temurin_query_urls() {
    let u = temurin_query_url(Os::Linux, "x86_64", "21", false);
    assert_eq!(
        u,
        "https://api.adoptium.net/v3/assets/latest/21/hotspot?os=linux&architecture=x64&image_type=jdk"
    );
    let u = temurin_query_url(Os::MacOs, "aarch64", "ignored", true);
    assert_eq!(
        u,
        "https://api.adoptium.net/v3/assets/latest/all/hotspot?os=darwin&architecture=aarch64&image_type=jdk"
    );
}

#[test]
fn azul_selects_plain_jdk_zip() {
    let body = r#"[
        {"name":"zulu21-crac-jdk21.0.2-linux_x64.zip","download_url":"https://cdn.azul.com/crac.zip","java_version":21},
        {"name":"zulu21-ca-fx-jdk21.0.2-linux_x64.zip","download_url":"https://cdn.azul.com/fx.zip","java_version":21},
        {"name":"zulu21.32.17-ca-jdk21.0.2-linux_x64.zip","download_url":"https://cdn.azul.com/plain.zip","java_version":21},
        {"name":"zulu21-ca-jdk21.0.2-linux_x64.tar.gz","download_url":"https://cdn.azul.com/tar.tar.gz","java_version":21}
    ]"#;
    let t = resolve_azul(body, "21").unwrap();
    assert_eq!(t.download_url, "https://cdn.azul.com/plain.zip");
    assert_eq!(t.archive_name, "zulu21.32.17-ca-jdk21.0.2-linux_x64.zip");
    assert!(matches!(t.kind, ArchiveKind::Zip));
    assert_eq!(t.resolved_version, "21");
}

#[test]
fn azul_falls_back_to_fx_then_anything() {
    // No plain candidate: the fx build (free of "crac") is taken.
    let body = r#"[
        {"name":"zulu21-crac-jdk21-linux_x64.zip","download_url":"https://cdn.azul.com/crac.zip"},
        {"name":"zulu21-ca-fx-jdk21-linux_x64.zip","download_url":"https://cdn.azul.com/fx.zip"}
    ]"#;
    let t = resolve_azul(body, "21").unwrap();
    assert_eq!(t.download_url, "https://cdn.azul.com/fx.zip");
    // Only crac candidates: the first candidate of any kind is taken.
    let body = r#"[
        {"name":"zulu21-crac-jdk21-linux_x64.zip","download_url":"https://cdn.azul.com/crac.zip"}
    ]"#;
    let t = resolve_azul(body, "21").unwrap();
    assert_eq!(t.download_url, "https://cdn.azul.com/crac.zip");
}

#[test]
fn azul_requested_version_kept_when_api_gives_none() {
    let body = r#"[
        {"name":"zulu17-ca-jdk17-linux_x64.zip","download_url":"https://cdn.azul.com/17.zip","java_version":[17,0,9]}
    ]"#;
    let t = resolve_azul(body, "17").unwrap();
    assert_eq!(t.resolved_version, "17");
}

#[test]
fn azul_error_cases() {
    assert!(matches!(resolve_azul("{\"not\":\"an array\"}", "21"), Err(ResolveError::BadStructure)));
    assert!(matches!(resolve_azul("not json at all", "21"), Err(ResolveError::BadStructure)));
    assert!(matches!(resolve_azul("[]", "21"), Err(ResolveError::NoCandidate)));
    let no_link = r#"[{"name":"zulu21-ca-jdk21-linux_x64.zip"}]"#;
    assert!(matches!(resolve_azul(no_link, "21"), Err(ResolveError::MissingLink)));
}

#[test]
fn temurin_takes_first_asset() {
    let body = r#"[
        {"binary":{"package":{"name":"OpenJDK21U-jdk_x64_linux_hotspot_21.0.2_13.tar.gz","link":"https://github.example/a.tar.gz"}}},
        {"binary":{"package":{"name":"other.zip","link":"https://github.example/b.zip"}}}
    ]"#;
    let t = resolve_temurin(body, "21").unwrap();
    assert_eq!(t.download_url, "https://github.example/a.tar.gz");
    assert_eq!(t.archive_name, "OpenJDK21U-jdk_x64_linux_hotspot_21.0.2_13.tar.gz");
    assert!(matches!(t.kind, ArchiveKind::TarGz));
    assert_eq!(t.resolved_version, "21");
}

#[test]
fn temurin_error_cases() {
    assert!(matches!(resolve_temurin("[]", "21"), Err(ResolveError::NoCandidate)));
    assert!(matches!(resolve_temurin("{}", "21"), Err(ResolveError::BadStructure)));
    let missing = r#"[{"binary":{"package":{"name":"x.zip"}}}]"#;
    assert!(matches!(resolve_temurin(missing, "21"), Err(ResolveError::BadStructure)));
}

#[test]
fn openjdk_picks_zip_for_system() {
    let html = r#"<html><body>
        <a href="https://download.java.net/java/GA/jdk21/x/jdk-21_macos-aarch64_bin.tar.gz">mac</a>
        <a href="https://download.java.net/java/GA/jdk21/x/jdk-21_windows-x64_bin.zip">win</a>
        <a href="https://download.java.net/java/GA/jdk21/x/jdk-21_linux-x64_bin.zip">linux</a>
    </body></html>"#;
    let t = resolve_openjdk(html, Os::Linux, "21").unwrap();
    assert_eq!(t.download_url, "https://download.java.net/java/GA/jdk21/x/jdk-21_linux-x64_bin.zip");
    assert_eq!(t.archive_name, "jdk-21_linux-x64_bin");
    assert_eq!(t.resolved_version, "21");
    assert!(matches!(resolve_openjdk(html, Os::MacOs, "21"), Err(ResolveError::NoCandidate)));
    assert_eq!(openjdk_page_url("21"), "https://jdk.java.net/21");
}

#[test]
fn python_latest_from_release_listing() {
    let html = r#"<div class="download-for-current-os">
        <a class="release-download-v3" href="/ftp/python/3.12.4/Python-3.12.4.tgz">Download</a>
    </div>"#;
    assert_eq!(python_latest_version(html).unwrap(), "3.12.4");
    let embed = r#"<div class="download-for-current-os">
        <a class="release-download-v3" href="/ftp/python/3.12.4/python-3.12.4-embed-amd64.zip">Download</a>
    </div>"#;
    assert_eq!(python_latest_version(embed).unwrap(), "3.12.4");
    assert!(matches!(python_latest_version("<p>nothing</p>"), Err(ResolveError::NoCandidate)));
}

#[test]
fn python_targets_per_system() {
    let t = python_target("3.11.9", Os::Linux);
    assert_eq!(t.download_url, "https://www.python.org/ftp/python/3.11.9/Python-3.11.9.tgz");
    assert_eq!(t.archive_name, "Python-3.11.9.tgz");
    assert!(matches!(t.kind, ArchiveKind::TarGz));
    assert_eq!(t.resolved_version, "3.11.9");
    let t = python_target("3.11.9", Os::Windows);
    assert_eq!(
        t.download_url,
        "https://www.python.org/ftp/python/3.11.9/python-3.11.9-embed-amd64.zip"
    );
    assert!(matches!(t.kind, ArchiveKind::Zip));
}

#[test]
fn c_cpp_is_windows_only() {
    // Resolution for any non-Windows system fails at once.
    assert!(matches!(resolve_c_cpp(Os::Linux), Err(ResolveError::UnsupportedPlatform)));
    assert!(matches!(resolve_c_cpp(Os::MacOs), Err(ResolveError::UnsupportedPlatform)));
    let t = resolve_c_cpp(Os::Windows).unwrap();
    assert_eq!(t.archive_name, "mingw-w64-v11.0.0.zip");
    assert_eq!(t.resolved_version, "11.0.0");
    assert!(t.download_url.starts_with("https://sourceforge.net/"));
}

#[test]
fn rust_targets() {
    let t = resolve_rust(Os::Windows);
    assert_eq!(t.download_url, "https://win.rustup.rs/x86_64");
    assert_eq!(t.archive_name, "rustup-init.exe");
    assert!(matches!(t.kind, ArchiveKind::RawExecutable));
    assert_eq!(t.resolved_version, "stable");
    let t = resolve_rust(Os::Linux);
    assert_eq!(t.download_url, "https://sh.rustup.rs");
    assert_eq!(t.archive_name, "rustup-init.sh");
}

#[test]
fn node_listing_and_target() {
    let index = r#"<pre>
        <a href="docs/">docs/</a>
        <a href="v20.11.1-lts/">v20.11.1-lts/</a>
    </pre>"#;
    let dirs = node_lts_dirs(index).unwrap();
    assert_eq!(dirs, vec!["v20.11.1-lts/"]);
    let listing = r#"<pre>
        <a href="node-v20.11.1-darwin-arm64.tar.gz">a</a>
        <a href="node-v20.11.1-linux-x64.tar.xz">b</a>
    </pre>"#;
    let f = node_pick_file(listing, Os::Linux, "x86_64").unwrap().unwrap();
    assert_eq!(f, "node-v20.11.1-linux-x64.tar.xz");
    assert!(node_pick_file(listing, Os::Windows, "x86_64").unwrap().is_none());
    let t = node_target("v20.11.1-lts/", &f);
    assert_eq!(
        t.download_url,
        "https://nodejs.org/dist/latest-lts/v20.11.1-lts/node-v20.11.1-linux-x64.tar.xz"
    );
    assert_eq!(t.archive_name, "node-v20.11.1-linux-x64.tar.xz");
    assert!(matches!(t.kind, ArchiveKind::TarXz));
    assert_eq!(t.resolved_version, "20.11.1-lts");
}

#[test]
fn go_resolution_from_downloads_page() {
    let html = r#"<div>
        <button class="toggleButton">go1.21.6</button>
        <button class="toggleButton">go1.22.1 (latest)</button>
        <table class="downloadTable">
            <tr><td><a href="/dl/go1.22.1.darwin-arm64.tar.gz">mac</a></td></tr>
            <tr><td><a href="/dl/go1.22.1.linux-amd64.tar.gz">linux</a></td></tr>
        </table>
    </div>"#;
    let t = resolve_go(html, Os::Linux, "x86_64").unwrap();
    assert_eq!(t.download_url, "https://go.dev/dl/go1.22.1.linux-amd64.tar.gz");
    assert_eq!(t.archive_name, "go1.22.1.linux-amd64.tar.gz");
    assert!(matches!(t.kind, ArchiveKind::TarGz));
    // The version is read back out of the artifact name's first dot-part,
    // so it keeps only what stands before the first dot.
    assert_eq!(t.resolved_version, "1");
    assert!(matches!(resolve_go(html, Os::Linux, "riscv64"), Err(ResolveError::UnsupportedPlatform)));
    assert!(matches!(
        resolve_go("<p>no toggles</p>", Os::Linux, "x86_64"),
        Err(ResolveError::NoCandidate)
    ));
}

#[test]
fn archive_kind_classification() {
    assert!(matches!(classify_archive("a.zip"), Some(ArchiveKind::Zip)));
    assert!(matches!(classify_archive("a.tgz"), Some(ArchiveKind::TarGz)));
    assert!(matches!(classify_archive("a.tar.gz"), Some(ArchiveKind::TarGz)));
    assert!(matches!(classify_archive("a.tar.xz"), Some(ArchiveKind::TarXz)));
    assert!(classify_archive("a.rar").is_none());
}
