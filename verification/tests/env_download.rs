use jdkm::Vendor;
use jdkm::download::{DownloadTracker, chunk_size};
use jdkm::envcfg::configure;
use jdkm::orchestrate::{Action, InstallOutcome, InstallRequest, Orchestrator, Phase};
use jdkm::platform::Os;

#[test]
fn download_tracker_accounting() {
    let mut t = DownloadTracker::new(Some(100));
    assert_eq!(t.total, 100);
    t.on_chunk(30);
    t.on_chunk(20);
    let p = t.progress();
    assert_eq!((p.num, p.den), (50, 100));
    // No announced content length: progress is reported as indeterminate.
    let t = DownloadTracker::new(None);
    let p = t.progress();
    assert_eq!((p.num, p.den), (0, 1));
    assert_eq!(chunk_size(), 8192);
}

#[test]
fn download_progress_is_capped_at_the_whole() {
    // A stream delivering more bytes than the announced length still
    // reports a fraction of at most one.
    let mut t = DownloadTracker::new(Some(100));
    t.on_chunk(150);
    let p = t.progress();
    assert_eq!((p.num, p.den), (100, 100));
}

#[test]
fn env_records_per_vendor() {
    let c = configure(Vendor::Temurin, "/home/u/jdkm/temurin_versions/temurin-21", Os::Linux);
    assert_eq!(c.vars.len(), 1);
    assert_eq!(c.vars[0].0, "JAVA_HOME");
    assert_eq!(c.vars[0].1, "/home/u/jdkm/temurin_versions/temurin-21");
    assert!(c.path_prefixes.is_empty());
    assert!(c.manual_note);

    let c = configure(Vendor::Python, "/p", Os::Linux);
    assert_eq!(c.vars[0].0, "PYTHON_HOME");

    let c = configure(Vendor::Go, "/g", Os::Linux);
    assert_eq!(c.vars[0].0, "GOROOT");
    assert_eq!(c.path_prefixes, vec!["/g/bin"]);

    let c = configure(Vendor::CCpp, "/m", Os::Windows);
    assert!(c.vars.is_empty());
    assert_eq!(c.path_prefixes, vec!["/m/bin"]);

    // Node.js on Windows holds its executable directly in the install path.
    let c = configure(Vendor::NodeJs, "/n", Os::Windows);
    assert_eq!(c.path_prefixes, vec!["/n"]);
    let c = configure(Vendor::NodeJs, "/n", Os::Linux);
    assert_eq!(c.path_prefixes, vec!["/n/bin"]);

    // rustup manages the shell itself: nothing to set, nothing to announce.
    let c = configure(Vendor::RustToolchain, "/r", Os::Linux);
    assert!(c.vars.is_empty());
    assert!(c.path_prefixes.is_empty());
    assert!(!c.manual_note);
}

#[test]
fn azul_run_resolves_from_fetched_metadata() {
    let req = InstallRequest {
        vendor: Vendor::AzulZulu,
        version: "21".to_string(),
        install_latest: false,
        python_libraries: String::new(),
    };
    let (mut o, a) = Orchestrator::start(req, Os::Linux, "x86_64", "/home/u");
    let url = match a {
        Action::Fetch { url } => url,
        _ => panic!("expected the metadata fetch"),
    };
    assert!(url.starts_with("https://api.azul.com/metadata/v1/zulu/packages?java_version=21"));
    let body = r#"[{"name":"zulu21-ca-jdk21-linux_x64.zip","download_url":"https://cdn.azul.com/z.zip","java_version":21}]"#;
    let a = o.on_fetched(Some(body));
    match a {
        Action::Probe { install_path, exe_rel, arg } => {
            assert_eq!(install_path, "/home/u/jdkm/azul_versions/azul-21");
            assert_eq!(exe_rel, "bin/java");
            assert_eq!(arg, "-version");
        },
        _ => panic!("expected the probe"),
    }
    assert!(matches!(o.phase, Phase::AwaitProbe));
}

#[test]
fn failed_metadata_fetch_is_a_resolution_error() {
    let req = InstallRequest {
        vendor: Vendor::Go,
        version: String::new(),
        install_latest: true,
        python_libraries: String::new(),
    };
    let (mut o, _) = Orchestrator::start(req, Os::Linux, "x86_64", "/home/u");
    let a = o.on_fetched(None);
    assert!(matches!(a, Action::Finished));
    assert!(matches!(
        o.outcome,
        Some(InstallOutcome::Failed(jdkm::orchestrate::FailureKind::Resolution(
            jdkm::resolve::ResolveError::Network
        )))
    ));
}

#[test]
fn node_run_walks_release_directories() {
    let req = InstallRequest {
        vendor: Vendor::NodeJs,
        version: String::new(),
        install_latest: true,
        python_libraries: String::new(),
    };
    let (mut o, a) = Orchestrator::start(req, Os::Linux, "x86_64", "/home/u");
    match a {
        Action::Fetch { url } => assert_eq!(url, "https://nodejs.org/dist/latest-lts/"),
        _ => panic!("expected the index fetch"),
    }
    let index = r#"<pre><a href="v20.11.1-lts/">v20.11.1-lts/</a></pre>"#;
    let a = o.on_fetched(Some(index));
    match a {
        Action::Fetch { url } => {
            assert_eq!(url, "https://nodejs.org/dist/latest-lts/v20.11.1-lts/");
        },
        _ => panic!("expected the directory fetch"),
    }
    let listing = r#"<pre><a href="node-v20.11.1-linux-x64.tar.gz">f</a></pre>"#;
    let a = o.on_fetched(Some(listing));
    match a {
        Action::Probe { install_path, .. } => {
            assert_eq!(install_path, "/home/u/jdkm/nodejs_versions/nodejs-20.11.1-lts");
        },
        _ => panic!("expected the probe"),
    }
    let t = o.target.as_ref().unwrap();
    assert_eq!(
        t.download_url,
        "https://nodejs.org/dist/latest-lts/v20.11.1-lts/node-v20.11.1-linux-x64.tar.gz"
    );
}
