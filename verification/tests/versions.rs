use bevy_cli::text::to_decimal;
use bevy_cli::version::{
    display_version, parse_version, requirement_matches, versions_equal, SemVersion,
};

fn s(x: &str) -> String {
    x.to_string()
}

#[test]
fn decimal_rendering() {
    assert_eq!(to_decimal(0), "0");
    assert_eq!(to_decimal(7), "7");
    assert_eq!(to_decimal(42), "42");
    assert_eq!(to_decimal(1000), "1000");
    assert_eq!(to_decimal(u64::MAX), "18446744073709551615");
}

#[test]
fn parses_full_version() {
    let v = parse_version(&s("1.2.3-alpha.1+build.5")).unwrap();
    assert_eq!(v.major, 1);
    assert_eq!(v.minor, 2);
    assert_eq!(v.patch, 3);
    assert_eq!(v.pre, "alpha.1");
    assert_eq!(v.build, "build.5");
}

#[test]
fn rejects_partial_version() {
    let e = parse_version(&s("0.14")).unwrap_err();
    assert_eq!(e.text, "0.14");
    assert!(parse_version(&s("1.0.01")).is_err());
    assert!(parse_version(&s("")).is_err());
}

#[test]
fn displays_versions() {
    let v = SemVersion { major: 0, minor: 14, patch: 2, pre: s(""), build: s("") };
    assert_eq!(display_version(&v), "0.14.2");
    let v = SemVersion { major: 1, minor: 0, patch: 0, pre: s("rc.1"), build: s("") };
    assert_eq!(display_version(&v), "1.0.0-rc.1");
    let v = SemVersion { major: 1, minor: 0, patch: 0, pre: s(""), build: s("abc") };
    assert_eq!(display_version(&v), "1.0.0+abc");
    let v = parse_version(&s("2.10.3-beta+x.y")).unwrap();
    assert_eq!(display_version(&v), "2.10.3-beta+x.y");
}

#[test]
fn compares_versions() {
    let a = parse_version(&s("0.14.0")).unwrap();
    let b = parse_version(&s("0.14.0")).unwrap();
    let c = parse_version(&s("0.14.0+meta")).unwrap();
    assert!(versions_equal(&a, &b));
    assert!(!versions_equal(&a, &c));
}

#[test]
fn matches_requirements() {
    assert_eq!(requirement_matches(&s("^0.14"), &s("0.14.2")), Some(true));
    assert_eq!(requirement_matches(&s("^0.14"), &s("0.15.0")), Some(false));
    assert_eq!(requirement_matches(&s(">=1.0, <2"), &s("1.5.0")), Some(true));
    assert_eq!(requirement_matches(&s("^0.14"), &s("0.14")), None);
    assert_eq!(requirement_matches(&s("@@"), &s("0.14.0")), None);
}
