use bevy_cli::lint::{
    duplicate_bevy_reports, find_bevy_dependents, lint_duplicate_bevy, mismatch_report_message,
    mismatched_dependents, needs_duplicate_check, requested_version_text, version_from_toml,
    BevyDependent, DependencySpec, GraphPackage, LintReport, ManifestDependency, PackageDependency,
    TomlEntry,
};
use bevy_cli::version::parse_version;
use bevy_cli::zst::{zero_sized, zst_help, zst_positions};

fn s(x: &str) -> String {
    x.to_string()
}

fn dep(name: &str, req: &str) -> PackageDependency {
    PackageDependency { name: s(name), req: s(req) }
}

fn manifest() -> Vec<ManifestDependency> {
    vec![
        ManifestDependency { name: s("bevy"), spec: DependencySpec::Version(s("0.14.0")), span_start: 10, span_end: 18 },
        ManifestDependency {
            name: s("old_plugin"),
            spec: DependencySpec::Table(vec![TomlEntry { key: s("version"), text: Some(s("1.0.0")) }]),
            span_start: 30,
            span_end: 52,
        },
        ManifestDependency { name: s("new_plugin"), spec: DependencySpec::Version(s("2.0.0")), span_start: 60, span_end: 67 },
    ]
}

fn packages() -> Vec<GraphPackage> {
    vec![
        GraphPackage { name: s("my_game"), dependencies: vec![dep("bevy", "^0.13")] },
        GraphPackage { name: s("old_plugin"), dependencies: vec![dep("serde", "^1"), dep("bevy", "^0.13")] },
        GraphPackage { name: s("new_plugin"), dependencies: vec![dep("bevy", "^0.14")] },
        GraphPackage { name: s("serde"), dependencies: vec![] },
    ]
}

#[test]
fn only_checks_with_several_bevies() {
    assert!(!needs_duplicate_check(0));
    assert!(!needs_duplicate_check(1));
    assert!(needs_duplicate_check(2));
}

#[test]
fn reads_version_in_both_forms() {
    let plain = DependencySpec::Version(s("0.14.1"));
    let table = DependencySpec::Table(vec![
        TomlEntry { key: s("features"), text: None },
        TomlEntry { key: s("version"), text: Some(s("0.14.1")) },
    ]);
    assert_eq!(version_from_toml(&plain), version_from_toml(&table));
    assert_eq!(version_from_toml(&plain).unwrap().minor, 14);
    assert_eq!(requested_version_text(&DependencySpec::Other), None);
    assert_eq!(
        requested_version_text(&DependencySpec::Table(vec![TomlEntry { key: s("version"), text: None }])),
        None
    );
    assert_eq!(version_from_toml(&DependencySpec::Version(s("0.14"))).unwrap_err().text, "0.14");
}

#[test]
fn finds_dependents_except_local() {
    let ds = find_bevy_dependents(&packages(), &s("my_game"));
    assert_eq!(
        ds,
        vec![
            BevyDependent { package: s("old_plugin"), req: s("^0.13") },
            BevyDependent { package: s("new_plugin"), req: s("^0.14") },
        ]
    );
}

#[test]
fn keeps_mismatched_requirements() {
    let ds = find_bevy_dependents(&packages(), &s("my_game"));
    let bad = mismatched_dependents(&ds, &s("0.14.0"));
    assert_eq!(bad, vec![BevyDependent { package: s("old_plugin"), req: s("^0.13") }]);
}

#[test]
fn reports_mismatched_dependencies() {
    let expected = vec![LintReport {
        crate_name: s("old_plugin"),
        span_start: 30,
        span_end: 52,
        message: s("Mismatching versions of `bevy` found, expected crate to be using bevy version: 0.14.0"),
    }];
    assert_eq!(duplicate_bevy_reports(&manifest(), &packages(), &s("my_game")), expected);
    assert_eq!(lint_duplicate_bevy(&manifest(), &packages(), &s("my_game")), Some(expected));
}

#[test]
fn lint_gives_up_where_undefined() {
    let no_bevy: Vec<ManifestDependency> = manifest().into_iter().skip(1).collect();
    assert_eq!(lint_duplicate_bevy(&no_bevy, &packages(), &s("my_game")), None);
    let mut missing = manifest();
    missing.remove(1);
    assert_eq!(lint_duplicate_bevy(&missing, &packages(), &s("my_game")), None);
}

#[test]
fn report_message() {
    let v = parse_version(&s("0.15.0-rc.2")).unwrap();
    assert_eq!(
        mismatch_report_message(&v),
        "Mismatching versions of `bevy` found, expected crate to be using bevy version: 0.15.0-rc.2"
    );
}

#[test]
fn zero_sized_types() {
    assert_eq!(zero_sized(false, Some(0)), None);
    assert_eq!(zero_sized(true, Some(0)), Some(true));
    assert_eq!(zero_sized(true, Some(8)), Some(false));
    assert_eq!(zero_sized(true, None), None);
    assert_eq!(zst_positions(&vec![Some(true), None, Some(false), Some(true)]), vec![0, 3]);
    assert_eq!(zst_help(&s("Player")), "consider using a filter instead: `With<Player>`");
}
