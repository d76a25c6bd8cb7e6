use jdkm::compat::is_version_compatible;
use jdkm::platform::{Os, detect_platform, go_arch, jdk_arch, node_arch};
use jdkm::text::{
    Sep, contains_sub, csv_items, find_sub, has_prefix, has_suffix, lines, split_str, str_eq,
    str_ge, strip_all_prefix, strip_all_suffix, strip_prefix, strip_suffix, tokens, trim,
};

#[test]
fn compatible_exact_match() {
    assert!(is_version_compatible("3.12.4", "==3.12.4"));
}

#[test]
fn compatible_exact_mismatch() {
    assert!(!is_version_compatible("3.12.4", "==3.12.5"));
}

#[test]
fn compatible_at_least() {
    assert!(is_version_compatible("3.12.4", ">=3.12.0"));
}

#[test]
fn compatible_lexicographic_artifact() {
    // Lexicographic comparison, deliberately: "1.10.0" sorts below "1.2.0".
    assert!(!is_version_compatible("1.10.0", ">=1.2.0"));
}

#[test]
fn compatible_bare_specifier() {
    assert!(is_version_compatible("21", "21"));
    assert!(!is_version_compatible("21.0.2", "21"));
}

#[test]
fn compatible_trims_requirement() {
    assert!(is_version_compatible("1.26.4", ">= 1.20.0 "));
    assert!(is_version_compatible("1.26.4", "numpy>=1.20.0"));
}

#[test]
fn compatible_double_separator_matches_nothing() {
    assert!(!is_version_compatible("1", "==1==1"));
    assert!(!is_version_compatible("1", ">=1>=0"));
}

#[test]
fn text_trim() {
    assert_eq!(trim("  a b \t\r\n"), "a b");
    assert_eq!(trim("   "), "");
    assert_eq!(trim(""), "");
}

#[test]
fn text_find_and_contains() {
    assert_eq!(find_sub("abcabc", "ca"), Some(2));
    assert_eq!(find_sub("abc", "zz"), None);
    assert!(contains_sub("zulu21-ca-jdk21.zip", "-jdk"));
    assert!(!contains_sub("short", "longer than s"));
}

#[test]
fn text_prefix_suffix() {
    assert!(has_prefix("python-3.12.4", "python-"));
    assert!(!has_prefix("py", "python-"));
    assert!(has_suffix("a.tar.gz", ".tar.gz"));
    assert_eq!(strip_prefix("Python 3.11.9", "Python "), "3.11.9");
    assert_eq!(strip_prefix("abc", "x"), "abc");
    assert_eq!(strip_suffix("jdk-21.zip", ".zip"), "jdk-21");
    assert_eq!(strip_all_prefix("gogo1", "go"), "1");
    assert_eq!(strip_all_suffix("v20.11.1//", "/"), "v20.11.1");
}

#[test]
fn text_lexicographic_order() {
    assert!(str_ge("3.9.1", "3.9.0"));
    assert!(str_ge("abc", "abc"));
    assert!(!str_ge("1.10.0", "1.2.0"));
    assert!(str_ge("b", ""));
    assert!(!str_ge("", "a"));
}

#[test]
fn text_split_keeps_empty_pieces() {
    let parts = split_str(Sep::Comma, "a,,b,");
    assert_eq!(parts, vec!["a", "", "b", ""]);
}

#[test]
fn text_tokens_skip_runs_of_whitespace() {
    assert_eq!(tokens("gcc  (GCC)\t13.2.0\n"), vec!["gcc", "(GCC)", "13.2.0"]);
    assert!(tokens("   ").is_empty());
}

#[test]
fn text_lines_like_rust() {
    assert_eq!(lines("a\r\nb\nc\n"), vec!["a", "b", "c"]);
    assert!(lines("").is_empty());
    assert_eq!(lines("\n"), vec![""]);
}

#[test]
fn text_csv_items_trim_and_drop_empty() {
    assert_eq!(
        csv_items(" numpy>=1.20.0 , pandas , ,"),
        vec!["numpy>=1.20.0", "pandas"]
    );
    assert!(csv_items("").is_empty());
}

#[test]
fn text_str_eq() {
    assert!(str_eq("abc", "abc"));
    assert!(!str_eq("abc", "abd"));
    assert!(!str_eq("abc", "ab"));
}

#[test]
fn platform_detection() {
    let p = detect_platform("macos", "aarch64").unwrap();
    assert!(matches!(p.os, Os::MacOs));
    assert_eq!(p.os.name(), "darwin");
    assert_eq!(p.arch, "aarch64");
    assert!(detect_platform("freebsd", "x86_64").is_none());
}

#[test]
fn vendor_taxonomy() {
    assert!(jdkm::Vendor::AzulZulu.is_java());
    assert!(jdkm::Vendor::Temurin.is_java());
    assert!(jdkm::Vendor::OpenJdk.is_java());
    assert!(!jdkm::Vendor::Python.is_java());
    assert!(!jdkm::Vendor::Go.is_java());
}

#[test]
fn arch_naming_per_vendor() {
    assert_eq!(jdk_arch("x86_64"), "x64");
    assert_eq!(jdk_arch("aarch64"), "aarch64");
    assert_eq!(jdk_arch("riscv64"), "riscv64");
    assert_eq!(node_arch("x86_64"), "x64");
    assert_eq!(node_arch("aarch64"), "arm64");
    assert_eq!(go_arch("x86_64").unwrap(), "amd64");
    assert_eq!(go_arch("aarch64").unwrap(), "arm64");
    assert!(go_arch("riscv64").is_none());
}
