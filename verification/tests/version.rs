use network_launcher::version::{
    standing, supported_range, unsupported_message, InterfaceVersion, Standing, OWN_MAJOR,
    OWN_MINOR, OWN_PATCH,
};

fn version(major: u64, minor: u64, patch: u64, pre: &str, build: &str) -> InterfaceVersion {
    InterfaceVersion { major, minor, patch, pre: pre.to_string(), build: build.to_string() }
}

fn from_semver(v: &semver::Version) -> InterfaceVersion {
    version(v.major, v.minor, v.patch, v.pre.as_str(), v.build.as_str())
}

#[test]
fn no_version_is_undeclared() {
    assert_eq!(standing(None), Standing::Undeclared);
}

#[test]
fn own_version_is_identical() {
    assert_eq!(standing(Some(&InterfaceVersion::own())), Standing::Identical);
    assert_eq!(standing(Some(&InterfaceVersion::release(1, 0, 0))), Standing::Identical);
    assert!(InterfaceVersion::own().is_own());
    assert_eq!((OWN_MAJOR, OWN_MINOR, OWN_PATCH), (1, 0, 0));
}

#[test]
fn later_releases_of_the_same_major_are_compatible() {
    assert_eq!(standing(Some(&InterfaceVersion::release(1, 2, 0))), Standing::Compatible);
    assert_eq!(standing(Some(&InterfaceVersion::release(1, 0, 1))), Standing::Compatible);
    assert_eq!(standing(Some(&InterfaceVersion::release(1, 99, 7))), Standing::Compatible);
    assert_eq!(
        standing(Some(&InterfaceVersion::release(1, u64::MAX, u64::MAX))),
        Standing::Compatible
    );
}

#[test]
fn build_metadata_makes_a_version_differ_from_the_own() {
    assert_eq!(standing(Some(&version(1, 0, 0, "", "linux"))), Standing::Compatible);
    assert!(!version(1, 0, 0, "", "linux").is_own());
}

#[test]
fn other_majors_are_unsupported() {
    assert_eq!(standing(Some(&InterfaceVersion::release(0, 9, 0))), Standing::Unsupported);
    assert_eq!(standing(Some(&InterfaceVersion::release(0, 0, 0))), Standing::Unsupported);
    assert_eq!(standing(Some(&InterfaceVersion::release(2, 0, 0))), Standing::Unsupported);
    assert_eq!(standing(Some(&InterfaceVersion::release(u64::MAX, 0, 0))), Standing::Unsupported);
}

#[test]
fn pre_releases_are_unsupported() {
    assert_eq!(standing(Some(&version(1, 0, 0, "alpha", ""))), Standing::Unsupported);
    assert_eq!(standing(Some(&version(1, 2, 0, "rc.1", ""))), Standing::Unsupported);
    assert_eq!(standing(Some(&version(1, 2, 0, "0", "b"))), Standing::Unsupported);
}

#[test]
fn identifiers_that_are_no_identifiers_are_unsupported() {
    assert_eq!(standing(Some(&version(1, 2, 0, "not valid", ""))), Standing::Unsupported);
    assert_eq!(standing(Some(&version(1, 2, 0, "01", ""))), Standing::Unsupported);
    assert_eq!(standing(Some(&version(1, 2, 0, "a..b", ""))), Standing::Unsupported);
}

#[test]
fn support_agrees_with_the_caret_requirement() {
    let requirement = semver::VersionReq::parse("^1.0.0").unwrap();
    let own = semver::Version::parse("1.0.0").unwrap();
    let samples = [
        "0.0.0", "0.1.0", "0.9.9", "1.0.0", "1.0.1", "1.1.0", "1.2.0", "1.2.3", "1.10.0",
        "2.0.0", "2.1.3", "10.0.0", "1.0.0-alpha", "1.0.0-0", "1.0.1-beta.2", "1.2.0-rc.1",
        "2.0.0-pre", "1.0.0+build", "1.2.0+build.5", "1.0.0-alpha+build", "0.0.0+x",
        "18446744073709551615.0.0", "1.18446744073709551615.18446744073709551615",
    ];
    for text in samples {
        let parsed = semver::Version::parse(text).unwrap();
        let declared = from_semver(&parsed);
        let expected = if !requirement.matches(&parsed) {
            Standing::Unsupported
        } else if parsed == own {
            Standing::Identical
        } else {
            Standing::Compatible
        };
        assert_eq!(standing(Some(&declared)), expected, "{}", text);
        assert_eq!(declared.is_supported(), requirement.matches(&parsed), "{}", text);
        assert_eq!(declared.text(), parsed.to_string(), "{}", text);
    }
}

#[test]
fn version_text() {
    assert_eq!(InterfaceVersion::release(1, 2, 0).text(), "1.2.0");
    assert_eq!(version(1, 0, 0, "alpha.1", "").text(), "1.0.0-alpha.1");
    assert_eq!(version(1, 0, 0, "", "build.7").text(), "1.0.0+build.7");
    assert_eq!(version(10, 20, 30, "rc", "x").text(), "10.20.30-rc+x");
}

#[test]
fn supported_range_text() {
    assert_eq!(supported_range(), "^1.0.0");
    assert_eq!(supported_range(), semver::VersionReq::parse("^1.0.0").unwrap().to_string());
}

#[test]
fn unsupported_version_message() {
    assert_eq!(
        unsupported_message(&InterfaceVersion::release(2, 0, 0)),
        "Error: Unsupported interface version 2.0.0. Supported versions: ^1.0.0"
    );
    assert_eq!(
        unsupported_message(&version(1, 0, 0, "alpha", "")),
        "Error: Unsupported interface version 1.0.0-alpha. Supported versions: ^1.0.0"
    );
}
