use pilfer::semver::{check_version, parse_version, version_newer, Version, VersionCheck};

fn v(major: u16, minor: u16, patch: u16, pre: &str) -> Version {
    Version { major, minor, patch, prerelease: pre.to_string() }
}

#[test]
fn parses_a_plain_version() {
    assert_eq!(parse_version("1.2.3"), Some(v(1, 2, 3, "")));
    assert_eq!(parse_version("0.0.0"), Some(v(0, 0, 0, "")));
    assert_eq!(parse_version("65535.0.10"), Some(v(65535, 0, 10, "")));
}

#[test]
fn parses_prerelease_and_build() {
    assert_eq!(parse_version("1.2.3-alpha.1"), Some(v(1, 2, 3, "alpha.1")));
    assert_eq!(parse_version("1.2.3-0.x-y.Z"), Some(v(1, 2, 3, "0.x-y.Z")));
    assert_eq!(parse_version("1.2.3+build.5"), Some(v(1, 2, 3, "")));
    assert_eq!(parse_version("1.2.3-rc.1+build.5"), Some(v(1, 2, 3, "rc.1")));
}

#[test]
fn rejects_what_is_not_a_version() {
    for s in [
        "", "1", "1.2", "1.2.", "01.2.3", "1.02.3", "1.2.3.4", "1.2.3-", "1.2.3-a..b",
        "1.2.3-01", "1.2.3+", "1.2.3+a_b", "1.2.3-a!b", "v1.2.3", "1.2.3 ", "65536.0.0",
        "1.2.999999",
    ] {
        assert_eq!(parse_version(s), None, "accepted {:?}", s);
    }
}

#[test]
fn a_numeric_prerelease_identifier_may_be_a_bare_zero() {
    assert_eq!(parse_version("1.2.3-0"), Some(v(1, 2, 3, "0")));
    assert_eq!(parse_version("1.2.3-0a"), Some(v(1, 2, 3, "0a")));
}

#[test]
fn ordering_follows_the_numeric_triple_first() {
    assert!(version_newer(&v(2, 0, 0, ""), &v(1, 9, 9, "")));
    assert!(version_newer(&v(1, 3, 0, ""), &v(1, 2, 9, "")));
    assert!(version_newer(&v(1, 2, 4, ""), &v(1, 2, 3, "")));
    assert!(!version_newer(&v(1, 2, 3, ""), &v(1, 2, 3, "")));
}

#[test]
fn prerelease_text_breaks_ties_as_bare_text() {
    // the check compares the prerelease as plain text, where the empty
    // text comes first
    assert!(version_newer(&v(1, 0, 0, "alpha"), &v(1, 0, 0, "")));
    assert!(version_newer(&v(1, 0, 0, "beta"), &v(1, 0, 0, "alpha")));
    assert!(!version_newer(&v(1, 0, 0, "alpha"), &v(1, 0, 0, "beta")));
}

#[test]
fn check_version_reports_each_outcome() {
    assert_eq!(check_version("not-a-version", "1.0.0"), VersionCheck::CurrentInvalid);
    assert_eq!(check_version("1.0.0", "oops"), VersionCheck::InstanceInvalid);
    assert_eq!(check_version("1.0.0", "1.0.1"), VersionCheck::InstanceNewer);
    assert_eq!(check_version("1.0.1", "1.0.0"), VersionCheck::UpToDate);
    assert_eq!(check_version("1.0.0", "1.0.0"), VersionCheck::UpToDate);
}
