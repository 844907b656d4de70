//! The duplicate-`bevy` lint: which crates of the dependency graph ask for a
//! version of `bevy` that the workspace's own `bevy` version does not meet,
//! and where in `Cargo.toml` each is reported.

use vstd::prelude::*;
use crate::text::append_str;
use crate::version::{
    display_version, parse_version, requirement_matches, semver_parse, semver_req_matches,
    version_text, InvalidVersion, SemVersion, SemVersionView,
};

verus! {

/// A key of a TOML table with its value, where the value is a string.
#[derive(Debug, Clone, PartialEq, Eq)]
pub struct TomlEntry {
    pub key: String,
    /// The value's text where it is a string; `None` for any other value.
    pub text: Option<String>,
}

/// How a dependency is written in `Cargo.toml`.
#[derive(Debug, Clone, PartialEq, Eq)]
pub enum DependencySpec {
    /// `name = "1.2.3"`
    Version(String),
    /// `name = { version = "1.2.3", ... }`, its entries in order.
    Table(Vec<TomlEntry>),
    /// Any other TOML value.
    Other,
}

/// A dependency of the workspace's `Cargo.toml`, with the byte range of its
/// value in the file.
#[derive(Debug, Clone, PartialEq, Eq)]
pub struct ManifestDependency {
    pub name: String,
    pub spec: DependencySpec,
    pub span_start: usize,
    pub span_end: usize,
}

/// A dependency of a package of the dependency graph: its name and version
/// requirement (as text).
#[derive(Debug, Clone, PartialEq, Eq)]
pub struct PackageDependency {
    pub name: String,
    pub req: String,
}

/// A package of the dependency graph with its dependencies, in order.
#[derive(Debug, Clone, PartialEq, Eq)]
pub struct GraphPackage {
    pub name: String,
    pub dependencies: Vec<PackageDependency>,
}

/// A package that depends on `bevy`, with the requirement it states.
#[derive(Debug, Clone, PartialEq, Eq)]
pub struct BevyDependent {
    pub package: String,
    pub req: String,
}

/// A finding of the lint: the dependency of `Cargo.toml` it points at, the
/// byte range of that dependency's value, and the message.
#[derive(Debug, Clone, PartialEq, Eq)]
pub struct LintReport {
    pub crate_name: String,
    pub span_start: usize,
    pub span_end: usize,
    pub message: String,
}

pub open spec fn dependent_view(d: BevyDependent) -> (Seq<char>, Seq<char>) {
    (d.package@, d.req@)
}

pub open spec fn report_view(r: LintReport) -> (Seq<char>, usize, usize, Seq<char>) {
    (r.crate_name@, r.span_start, r.span_end, r.message@)
}

/// The string value of the first entry of a table under `key`: `None` where
/// no entry has the key, `Some(None)` where the value is not a string.
pub open spec fn table_lookup(entries: Seq<TomlEntry>, key: Seq<char>) -> Option<
    Option<Seq<char>>,
>
    decreases entries.len(),
{
    if entries.len() == 0 {
        None
    } else {
        let before = table_lookup(entries.drop_last(), key);
        if before is Some {
            before
        } else if entries.last().key@ == key {
            Some(
                match entries.last().text {
                    Some(t) => Some(t@),
                    None => None,
                },
            )
        } else {
            None
        }
    }
}

/// The version a dependency asks for: the string itself, or the string under
/// `version` in a table. `None` where there is no such string.
pub open spec fn requested_version(spec: DependencySpec) -> Option<Seq<char>> {
    match spec {
        DependencySpec::Version(v) => Some(v@),
        DependencySpec::Table(entries) => match table_lookup(entries@, "version"@) {
            Some(Some(t)) => Some(t),
            _ => None,
        },
        DependencySpec::Other => None,
    }
}

/// The first dependency of `Cargo.toml` with the given name.
pub open spec fn manifest_lookup(deps: Seq<ManifestDependency>, name: Seq<char>) -> Option<
    ManifestDependency,
>
    decreases deps.len(),
{
    if deps.len() == 0 {
        None
    } else {
        let before = manifest_lookup(deps.drop_last(), name);
        if before is Some {
            before
        } else if deps.last().name@ == name {
            Some(deps.last())
        } else {
            None
        }
    }
}

/// The requirements among `deps` that are dependencies on `bevy`, in order.
pub open spec fn bevy_reqs(deps: Seq<PackageDependency>) -> Seq<Seq<char>>
    decreases deps.len(),
{
    if deps.len() == 0 {
        seq![]
    } else {
        let before = bevy_reqs(deps.drop_last());
        if deps.last().name@ == "bevy"@ {
            before.push(deps.last().req@)
        } else {
            before
        }
    }
}

/// The dependencies of one package on `bevy`; none for the crate being
/// checked.
pub open spec fn package_bevy_deps(p: GraphPackage, local: Seq<char>) -> Seq<(Seq<char>, Seq<char>)> {
    if p.name@ == local {
        seq![]
    } else {
        bevy_reqs(p.dependencies@).map_values(|r: Seq<char>| (p.name@, r))
    }
}

/// Every dependency on `bevy` of a package other than the crate being
/// checked, in the order of the packages and of their dependencies.
pub open spec fn bevy_dependents(ps: Seq<GraphPackage>, local: Seq<char>) -> Seq<
    (Seq<char>, Seq<char>),
>
    decreases ps.len(),
{
    if ps.len() == 0 {
        seq![]
    } else {
        bevy_dependents(ps.drop_last(), local) + package_bevy_deps(ps.last(), local)
    }
}

/// The dependents whose requirement does not admit the target version.
pub open spec fn mismatched(ds: Seq<(Seq<char>, Seq<char>)>, target: Seq<char>) -> Seq<
    (Seq<char>, Seq<char>),
>
    decreases ds.len(),
{
    if ds.len() == 0 {
        seq![]
    } else {
        let before = mismatched(ds.drop_last(), target);
        if semver_req_matches(ds.last().1, target) == Some(false) {
            before.push(ds.last())
        } else {
            before
        }
    }
}

/// The message of every finding.
pub open spec fn mismatch_message(target: SemVersionView) -> Seq<char> {
    "Mismatching versions of `bevy` found, expected crate to be using bevy version: "@
        + version_text(target)
}

/// The text of the `bevy` version that `Cargo.toml` asks for, where it asks
/// for one.
pub open spec fn bevy_version_text(manifest: Seq<ManifestDependency>) -> Option<Seq<char>> {
    match manifest_lookup(manifest, "bevy"@) {
        Some(d) => requested_version(d.spec),
        None => None,
    }
}

/// The findings for the given mismatched dependents, in order.
pub open spec fn findings(
    manifest: Seq<ManifestDependency>,
    ds: Seq<(Seq<char>, Seq<char>)>,
    message: Seq<char>,
) -> Seq<(Seq<char>, usize, usize, Seq<char>)>
    decreases ds.len(),
{
    if ds.len() == 0 {
        seq![]
    } else {
        let d = manifest_lookup(manifest, ds.last().0)->0;
        findings(manifest, ds.drop_last(), message).push(
            (ds.last().0, d.span_start, d.span_end, message),
        )
    }
}

/// The lint is defined on its inputs: `Cargo.toml` asks for a `bevy` version
/// that parses, and every dependent whose requirement does not admit it is a
/// dependency of `Cargo.toml` too.
pub open spec fn lint_defined(
    manifest: Seq<ManifestDependency>,
    packages: Seq<GraphPackage>,
    local: Seq<char>,
) -> bool {
    &&& bevy_version_text(manifest) is Some
    &&& semver_parse(bevy_version_text(manifest)->0) is Some
    &&& forall|i: int|
        0 <= i < mismatched(bevy_dependents(packages, local), bevy_version_text(manifest)->0).len()
            ==> manifest_lookup(
            manifest,
            #[trigger] mismatched(bevy_dependents(packages, local), bevy_version_text(manifest)->0)[i].0,
        ) is Some
}

/// The findings of the lint.
pub open spec fn lint_findings(
    manifest: Seq<ManifestDependency>,
    packages: Seq<GraphPackage>,
    local: Seq<char>,
) -> Seq<(Seq<char>, usize, usize, Seq<char>)> {
    let target = bevy_version_text(manifest)->0;
    findings(
        manifest,
        mismatched(bevy_dependents(packages, local), target),
        mismatch_message(semver_parse(target)->0),
    )
}

/// The lint runs only where the crate links more than one `bevy`.
pub fn needs_duplicate_check(bevy_crates: usize) -> (r: bool)
    ensures
        r == (bevy_crates > 1),
{
    bevy_crates > 1
}

/// The position of the `version` entry that decides a table's lookup.
fn find_table_entry(entries: &Vec<TomlEntry>, key: &String) -> (r: Option<usize>)
    ensures
        r is None ==> table_lookup(entries@, key@) is None,
        r matches Some(i) ==> i < entries@.len() && table_lookup(entries@, key@) == Some(
            match entries@[i as int].text {
                Some(t) => Some(t@),
                None => None,
            },
        ),
{
    let mut found: Option<usize> = None;
    let mut i: usize = 0;
    while i < entries.len()
        invariant
            i <= entries@.len(),
            found is None ==> table_lookup(entries@.take(i as int), key@) is None,
            found matches Some(k) ==> k < i && table_lookup(entries@.take(i as int), key@) == Some(
                match entries@[k as int].text {
                    Some(t) => Some(t@),
                    None => None,
                },
            ),
        decreases entries@.len() - i,
    {
        proof {
            assert(entries@.take(i + 1).drop_last() =~= entries@.take(i as int));
        }
        if found.is_none() && entries[i].key == *key {
            found = Some(i);
        }
        i = i + 1;
    }
    assert(entries@.take(entries@.len() as int) =~= entries@);
    found
}

/// The text of the version a dependency asks for.
pub fn requested_version_text(spec: &DependencySpec) -> (r: Option<String>)
    ensures
        match r {
            Some(t) => requested_version(*spec) == Some(t@),
            None => requested_version(*spec) is None,
        },
{
    match spec {
        DependencySpec::Version(v) => Some(v.clone()),
        DependencySpec::Table(entries) => {
            let key = String::from_str("version");
            match find_table_entry(entries, &key) {
                Some(i) => match &entries[i].text {
                    Some(t) => Some(t.clone()),
                    None => None,
                },
                None => None,
            }
        },
        DependencySpec::Other => None,
    }
}

/// Reads the version a `Cargo.toml` dependency asks for.
pub fn version_from_toml(spec: &DependencySpec) -> (r: Result<SemVersion, InvalidVersion>)
    requires
        requested_version(*spec) is Some,
    ensures
        r is Ok <==> semver_parse(requested_version(*spec)->0) is Some,
        r matches Ok(v) ==> v@ == semver_parse(requested_version(*spec)->0)->0,
        r matches Err(e) ==> e.text@ == requested_version(*spec)->0,
{
    match requested_version_text(spec) {
        Some(t) => parse_version(&t),
        None => {
            assert(false);
            Err(InvalidVersion { text: String::new() })
        },
    }
}

/// A version written as a plain string and one written under `version` in a
/// table are read alike.
pub proof fn string_and_table_forms_agree(text: String, entries: Vec<TomlEntry>)
    requires
        table_lookup(entries@, "version"@) == Some(Some(text@)),
    ensures
        requested_version(DependencySpec::Table(entries)) == requested_version(
            DependencySpec::Version(text),
        ),
{
}

/// The position of the dependency of `Cargo.toml` that decides a lookup.
fn find_manifest_entry(deps: &Vec<ManifestDependency>, name: &String) -> (r: Option<usize>)
    ensures
        r is None ==> manifest_lookup(deps@, name@) is None,
        r matches Some(i) ==> i < deps@.len() && manifest_lookup(deps@, name@) == Some(
            deps@[i as int],
        ),
{
    let mut found: Option<usize> = None;
    let mut i: usize = 0;
    while i < deps.len()
        invariant
            i <= deps@.len(),
            found is None ==> manifest_lookup(deps@.take(i as int), name@) is None,
            found matches Some(k) ==> k < i && manifest_lookup(deps@.take(i as int), name@) == Some(
                deps@[k as int],
            ),
        decreases deps@.len() - i,
    {
        proof {
            assert(deps@.take(i + 1).drop_last() =~= deps@.take(i as int));
        }
        if found.is_none() && deps[i].name == *name {
            found = Some(i);
        }
        i = i + 1;
    }
    assert(deps@.take(deps@.len() as int) =~= deps@);
    found
}

/// Every dependency on `bevy` of a package other than `local`.
pub fn find_bevy_dependents(packages: &Vec<GraphPackage>, local: &String) -> (r: Vec<BevyDependent>)
    ensures
        r@.map_values(|d: BevyDependent| dependent_view(d)) == bevy_dependents(packages@, local@),
{
    let mut r: Vec<BevyDependent> = Vec::new();
    let bevy = String::from_str("bevy");
    let mut i: usize = 0;
    while i < packages.len()
        invariant
            i <= packages@.len(),
            bevy@ == "bevy"@,
            r@.map_values(|d: BevyDependent| dependent_view(d)) == bevy_dependents(
                packages@.take(i as int),
                local@,
            ),
        decreases packages@.len() - i,
    {
        let package = &packages[i];
        let ghost before = r@.map_values(|d: BevyDependent| dependent_view(d));
        proof {
            assert(packages@.take(i + 1).drop_last() =~= packages@.take(i as int));
            assert(packages@.take(i + 1).last() == *package);
        }
        if package.name != *local {
            let mut j: usize = 0;
            while j < package.dependencies.len()
                invariant
                    j <= package.dependencies@.len(),
                    bevy@ == "bevy"@,
                    package.name@ != local@,
                    r@.map_values(|d: BevyDependent| dependent_view(d)) == before + bevy_reqs(
                        package.dependencies@.take(j as int),
                    ).map_values(|q: Seq<char>| (package.name@, q)),
                decreases package.dependencies@.len() - j,
            {
                let dep = &package.dependencies[j];
                let ghost deps = package.dependencies@;
                proof {
                    assert(deps.take(j + 1).drop_last() =~= deps.take(j as int));
                    assert(deps.take(j + 1).last() == *dep);
                }
                let is_bevy = dep.name == bevy;
                let ghost prev = bevy_reqs(deps.take(j as int));
                let ghost old_map = r@.map_values(|d: BevyDependent| dependent_view(d));
                let ghost f = |q: Seq<char>| (package.name@, q);
                if is_bevy {
                    let item = BevyDependent { package: package.name.clone(), req: dep.req.clone() };
                    assert(dependent_view(item) == f(dep.req@));
                    r.push(item);
                    assert(bevy_reqs(deps.take(j + 1)) == prev.push(dep.req@));
                    assert(r@.map_values(|d: BevyDependent| dependent_view(d)) =~= old_map.push(
                        f(dep.req@),
                    ));
                    assert(prev.push(dep.req@).map_values(f) =~= prev.map_values(f).push(
                        f(dep.req@),
                    ));
                    assert((before + prev.map_values(f)).push(f(dep.req@)) =~= before
                        + prev.map_values(f).push(f(dep.req@)));
                } else {
                    assert(bevy_reqs(deps.take(j + 1)) == prev);
                }
                assert(r@.map_values(|d: BevyDependent| dependent_view(d)) =~= before + bevy_reqs(
                    deps.take(j + 1),
                ).map_values(|q: Seq<char>| (package.name@, q)));
                j = j + 1;
            }
            assert(package.dependencies@.take(package.dependencies@.len() as int)
                =~= package.dependencies@);
        }
        assert(r@.map_values(|d: BevyDependent| dependent_view(d)) =~= bevy_dependents(
            packages@.take(i + 1),
            local@,
        ));
        i = i + 1;
    }
    assert(packages@.take(packages@.len() as int) =~= packages@);
    r
}

/// The dependents whose requirement does not admit the `target` version.
pub fn mismatched_dependents(dependents: &Vec<BevyDependent>, target: &String) -> (r: Vec<
    BevyDependent,
>)
    ensures
        r@.map_values(|d: BevyDependent| dependent_view(d)) == mismatched(
            dependents@.map_values(|d: BevyDependent| dependent_view(d)),
            target@,
        ),
{
    let ghost all = dependents@.map_values(|d: BevyDependent| dependent_view(d));
    let mut r: Vec<BevyDependent> = Vec::new();
    let mut i: usize = 0;
    while i < dependents.len()
        invariant
            i <= dependents@.len(),
            all == dependents@.map_values(|d: BevyDependent| dependent_view(d)),
            r@.map_values(|d: BevyDependent| dependent_view(d)) == mismatched(
                all.take(i as int),
                target@,
            ),
        decreases dependents@.len() - i,
    {
        let d = &dependents[i];
        proof {
            assert(all.take(i + 1).drop_last() =~= all.take(i as int));
            assert(all.take(i + 1).last() == dependent_view(*d));
        }
        if requirement_matches(&d.req, target) == Some(false) {
            r.push(BevyDependent { package: d.package.clone(), req: d.req.clone() });
        }
        assert(r@.map_values(|d: BevyDependent| dependent_view(d)) =~= mismatched(
            all.take(i + 1),
            target@,
        ));
        i = i + 1;
    }
    assert(all.take(dependents@.len() as int) =~= all);
    r
}

/// The message of every finding for the target version.
pub fn mismatch_report_message(target: &SemVersion) -> (r: String)
    ensures
        r@ == mismatch_message(target@),
{
    let mut s = String::from_str(
        "Mismatching versions of `bevy` found, expected crate to be using bevy version: ",
    );
    let v = display_version(target);
    append_str(&mut s, v.as_str());
    s
}

/// The findings of the duplicate-`bevy` lint: one for each package of the
/// dependency graph (other than the crate being checked) whose requirement on
/// `bevy` does not admit the version that `Cargo.toml` asks for, in order,
/// each pointing at that package's entry in `Cargo.toml`.
pub fn duplicate_bevy_reports(
    manifest: &Vec<ManifestDependency>,
    packages: &Vec<GraphPackage>,
    local: &String,
) -> (r: Vec<LintReport>)
    requires
        lint_defined(manifest@, packages@, local@),
    ensures
        r@.map_values(|f: LintReport| report_view(f)) == lint_findings(
            manifest@,
            packages@,
            local@,
        ),
{
    let bevy = String::from_str("bevy");
    let k = match find_manifest_entry(manifest, &bevy) {
        Some(k) => k,
        None => {
            assert(false);
            0
        },
    };
    let target_text = match requested_version_text(&manifest[k].spec) {
        Some(t) => t,
        None => {
            assert(false);
            String::new()
        },
    };
    let target = match parse_version(&target_text) {
        Ok(v) => v,
        Err(_) => {
            assert(false);
            SemVersion { major: 0, minor: 0, patch: 0, pre: String::new(), build: String::new() }
        },
    };
    let message = mismatch_report_message(&target);
    let dependents = find_bevy_dependents(packages, local);
    let bad = mismatched_dependents(&dependents, &target_text);
    let ghost bad_view = bad@.map_values(|d: BevyDependent| dependent_view(d));
    let ghost want = lint_findings(manifest@, packages@, local@);
    proof {
        assert(bad_view == mismatched(bevy_dependents(packages@, local@), target_text@));
        assert(want == findings(manifest@, bad_view, message@));
    }
    let mut r: Vec<LintReport> = Vec::new();
    let mut i: usize = 0;
    while i < bad.len()
        invariant
            i <= bad@.len(),
            bad_view == bad@.map_values(|d: BevyDependent| dependent_view(d)),
            forall|j: int| 0 <= j < bad_view.len() ==> manifest_lookup(manifest@, #[trigger] bad_view[j].0) is Some,
            r@.map_values(|f: LintReport| report_view(f)) == findings(
                manifest@,
                bad_view.take(i as int),
                message@,
            ),
        decreases bad@.len() - i,
    {
        let d = &bad[i];
        proof {
            assert(bad_view.take(i + 1).drop_last() =~= bad_view.take(i as int));
            assert(bad_view.take(i + 1).last() == dependent_view(*d));
            assert(bad_view[i as int].0 == d.package@);
        }
        let m = match find_manifest_entry(manifest, &d.package) {
            Some(m) => m,
            None => {
                assert(false);
                0
            },
        };
        r.push(
            LintReport {
                crate_name: d.package.clone(),
                span_start: manifest[m].span_start,
                span_end: manifest[m].span_end,
                message: message.clone(),
            },
        );
        assert(r@.map_values(|f: LintReport| report_view(f)) =~= findings(
            manifest@,
            bad_view.take(i + 1),
            message@,
        ));
        i = i + 1;
    }
    assert(bad_view.take(bad@.len() as int) =~= bad_view);
    r
}

/// The duplicate-`bevy` lint on any input: `None` where it is not defined
/// (see [`lint_defined`]; there the lint itself gives up), otherwise its
/// findings.
pub fn lint_duplicate_bevy(
    manifest: &Vec<ManifestDependency>,
    packages: &Vec<GraphPackage>,
    local: &String,
) -> (r: Option<Vec<LintReport>>)
    ensures
        r is Some <==> lint_defined(manifest@, packages@, local@),
        r matches Some(v) ==> v@.map_values(|f: LintReport| report_view(f)) == lint_findings(
            manifest@,
            packages@,
            local@,
        ),
{
    let bevy = String::from_str("bevy");
    let k = match find_manifest_entry(manifest, &bevy) {
        Some(k) => k,
        None => {
            return None;
        },
    };
    let target_text = match requested_version_text(&manifest[k].spec) {
        Some(t) => t,
        None => {
            return None;
        },
    };
    if parse_version(&target_text).is_err() {
        return None;
    }
    let dependents = find_bevy_dependents(packages, local);
    let bad = mismatched_dependents(&dependents, &target_text);
    let ghost bad_view = bad@.map_values(|d: BevyDependent| dependent_view(d));
    assert(bad_view == mismatched(bevy_dependents(packages@, local@), bevy_version_text(manifest@)->0));
    let mut i: usize = 0;
    while i < bad.len()
        invariant
            i <= bad@.len(),
            bad_view == bad@.map_values(|d: BevyDependent| dependent_view(d)),
            bad_view == mismatched(bevy_dependents(packages@, local@), bevy_version_text(manifest@)->0),
            forall|j: int| 0 <= j < i ==> manifest_lookup(manifest@, #[trigger] bad_view[j].0) is Some,
        decreases bad@.len() - i,
    {
        assert(bad_view[i as int].0 == bad@[i as int].package@);
        assert(mismatched(bevy_dependents(packages@, local@), bevy_version_text(manifest@)->0)[i as int] == bad_view[i as int]);
        if find_manifest_entry(manifest, &bad[i].package).is_none() {
            assert(!lint_defined(manifest@, packages@, local@));
            return None;
        }
        i = i + 1;
    }
    Some(duplicate_bevy_reports(manifest, packages, local))
}

/// A requirement listed by `bevy_reqs` is that of a dependency on `bevy`.
proof fn lemma_bevy_req_source(deps: Seq<PackageDependency>, i: int)
    requires
        0 <= i < bevy_reqs(deps).len(),
    ensures
        exists|j: int|
            0 <= j < deps.len() && (#[trigger] deps[j]).name@ == "bevy"@ && deps[j].req@
                == bevy_reqs(deps)[i],
    decreases deps.len(),
{
    let before = bevy_reqs(deps.drop_last());
    if i < before.len() {
        lemma_bevy_req_source(deps.drop_last(), i);
        let j = choose|j: int|
            0 <= j < deps.drop_last().len() && (#[trigger] deps.drop_last()[j]).name@ == "bevy"@
                && deps.drop_last()[j].req@ == before[i];
        assert(deps[j] == deps.drop_last()[j]);
    } else {
        assert(deps[deps.len() - 1] == deps.last());
    }
}

/// A dependent listed by `bevy_dependents` is a package other than `local`
/// with a dependency on `bevy` stating that requirement.
proof fn lemma_dependent_source(ps: Seq<GraphPackage>, local: Seq<char>, i: int)
    requires
        0 <= i < bevy_dependents(ps, local).len(),
    ensures
        exists|k: int, j: int|
            0 <= k < ps.len() && 0 <= j < ps[k].dependencies@.len() && (#[trigger] ps[k]).name@
                == bevy_dependents(ps, local)[i].0 && ps[k].name@ != local
                && (#[trigger] ps[k].dependencies@[j]).name@ == "bevy"@
                && ps[k].dependencies@[j].req@ == bevy_dependents(ps, local)[i].1,
    decreases ps.len(),
{
    let before = bevy_dependents(ps.drop_last(), local);
    let last = ps.last();
    let k = ps.len() - 1;
    assert(ps[k] == last);
    if i < before.len() {
        lemma_dependent_source(ps.drop_last(), local, i);
        let (k0, j0) = choose|k0: int, j0: int|
            0 <= k0 < ps.drop_last().len() && 0 <= j0 < ps.drop_last()[k0].dependencies@.len()
                && (#[trigger] ps.drop_last()[k0]).name@ == before[i].0 && ps.drop_last()[k0].name@
                != local && (#[trigger] ps.drop_last()[k0].dependencies@[j0]).name@ == "bevy"@
                && ps.drop_last()[k0].dependencies@[j0].req@ == before[i].1;
        assert(ps[k0] == ps.drop_last()[k0]);
        assert(ps[k0].dependencies@[j0] == ps.drop_last()[k0].dependencies@[j0]);
    } else {
        let m = i - before.len();
        assert(last.name@ != local);
        let reqs = bevy_reqs(last.dependencies@);
        assert(package_bevy_deps(last, local)[m] == (last.name@, reqs[m]));
        lemma_bevy_req_source(last.dependencies@, m);
        let j = choose|j: int|
            0 <= j < last.dependencies@.len() && (#[trigger] last.dependencies@[j]).name@ == "bevy"@
                && last.dependencies@[j].req@ == reqs[m];
        assert(ps[k].dependencies@[j] == last.dependencies@[j]);
    }
}

/// An entry kept by `mismatched` is one of the dependents, and its
/// requirement does not admit the target.
proof fn lemma_mismatched_source(ds: Seq<(Seq<char>, Seq<char>)>, target: Seq<char>, i: int)
    requires
        0 <= i < mismatched(ds, target).len(),
    ensures
        exists|j: int| 0 <= j < ds.len() && #[trigger] ds[j] == mismatched(ds, target)[i],
        semver_req_matches(mismatched(ds, target)[i].1, target) == Some(false),
    decreases ds.len(),
{
    let before = mismatched(ds.drop_last(), target);
    if i < before.len() {
        lemma_mismatched_source(ds.drop_last(), target, i);
        let j = choose|j: int| 0 <= j < ds.drop_last().len() && #[trigger] ds.drop_last()[j] == before[i];
        assert(ds[j] == ds.drop_last()[j]);
    } else {
        assert(ds[ds.len() - 1] == ds.last());
    }
}

/// There is one finding for each dependent it is made for.
proof fn lemma_findings_len(
    manifest: Seq<ManifestDependency>,
    ds: Seq<(Seq<char>, Seq<char>)>,
    message: Seq<char>,
)
    ensures
        findings(manifest, ds, message).len() == ds.len(),
    decreases ds.len(),
{
    if ds.len() > 0 {
        lemma_findings_len(manifest, ds.drop_last(), message);
    }
}

/// The findings follow the dependents they are made for, in order.
proof fn lemma_findings_shape(
    manifest: Seq<ManifestDependency>,
    ds: Seq<(Seq<char>, Seq<char>)>,
    message: Seq<char>,
    i: int,
)
    requires
        0 <= i < ds.len(),
    ensures
        findings(manifest, ds, message)[i] == (
            ds[i].0,
            manifest_lookup(manifest, ds[i].0)->0.span_start,
            manifest_lookup(manifest, ds[i].0)->0.span_end,
            message,
        ),
    decreases ds.len(),
{
    lemma_findings_len(manifest, ds.drop_last(), message);
    if i < ds.len() - 1 {
        lemma_findings_shape(manifest, ds.drop_last(), message, i);
        assert(ds.drop_last()[i] == ds[i]);
    }
}

/// Every finding of the lint points at the `Cargo.toml` entry of a package
/// other than the crate being checked that depends on `bevy` with a
/// requirement the workspace's `bevy` version does not meet, and carries the
/// message naming that version.
pub proof fn findings_are_mismatched_dependents(
    manifest: Seq<ManifestDependency>,
    packages: Seq<GraphPackage>,
    local: Seq<char>,
    i: int,
)
    requires
        lint_defined(manifest, packages, local),
        0 <= i < lint_findings(manifest, packages, local).len(),
    ensures
        ({
            let f = lint_findings(manifest, packages, local)[i];
            let target = bevy_version_text(manifest)->0;
            &&& exists|k: int, j: int|
                0 <= k < packages.len() && 0 <= j < packages[k].dependencies@.len()
                    && (#[trigger] packages[k]).name@ == f.0 && packages[k].name@ != local
                    && (#[trigger] packages[k].dependencies@[j]).name@ == "bevy"@
                    && semver_req_matches(packages[k].dependencies@[j].req@, target) == Some(false)
            &&& manifest_lookup(manifest, f.0) matches Some(d) && d.span_start == f.1 && d.span_end
                == f.2
            &&& f.3 == mismatch_message(semver_parse(target)->0)
        }),
{
    let target = bevy_version_text(manifest)->0;
    let ds = bevy_dependents(packages, local);
    let bad = mismatched(ds, target);
    let message = mismatch_message(semver_parse(target)->0);
    lemma_findings_len(manifest, bad, message);
    lemma_findings_shape(manifest, bad, message, i);
    lemma_mismatched_source(ds, target, i);
    let j = choose|j: int| 0 <= j < ds.len() && #[trigger] ds[j] == bad[i];
    lemma_dependent_source(packages, local, j);
    assert(manifest_lookup(manifest, bad[i].0) is Some);
}

/// The message of the finding made when `cargo metadata` cannot be read.
pub open spec fn metadata_failure(error: Seq<char>) -> Seq<char> {
    "could not read cargo metadata: "@ + error
}

/// The message reported when `cargo metadata` fails with `error`.
pub fn metadata_error_message(error: &String) -> (r: String)
    ensures
        r@ == metadata_failure(error@),
{
    let mut s = String::from_str("could not read cargo metadata: ");
    append_str(&mut s, error.as_str());
    s
}

/// The names of the `Cargo.toml` dependencies are distinct (as the keys of a
/// TOML table are).
pub open spec fn distinct_names(deps: Seq<ManifestDependency>) -> bool {
    forall|a: int, b: int| 0 <= a < b < deps.len() ==> deps[a].name@ != deps[b].name@
}

/// A lookup only finds an entry with the name looked for.
proof fn lemma_lookup_found_named(deps: Seq<ManifestDependency>, name: Seq<char>)
    ensures
        manifest_lookup(deps, name) matches Some(d) ==> exists|k: int|
            0 <= k < deps.len() && deps[k] == d && d.name@ == name,
    decreases deps.len(),
{
    if deps.len() > 0 {
        lemma_lookup_found_named(deps.drop_last(), name);
        if manifest_lookup(deps.drop_last(), name) is Some {
            let d = manifest_lookup(deps.drop_last(), name)->0;
            let k = choose|k: int| 0 <= k < deps.drop_last().len() && deps.drop_last()[k] == d && d.name@ == name;
            assert(deps[k] == deps.drop_last()[k]);
        } else if deps.last().name@ == name {
            assert(deps[deps.len() - 1] == deps.last());
        }
    }
}

/// With distinct names (as in `Cargo.toml`), looking a dependency up by name
/// finds exactly the entry of that name, as a lookup in the TOML table does.
pub proof fn lookup_finds_named_entry(deps: Seq<ManifestDependency>, i: int)
    requires
        distinct_names(deps),
        0 <= i < deps.len(),
    ensures
        manifest_lookup(deps, deps[i].name@) == Some(deps[i]),
    decreases deps.len(),
{
    let name = deps[i].name@;
    let before = deps.drop_last();
    assert(distinct_names(before)) by {
        assert forall|a: int, b: int| 0 <= a < b < before.len() implies before[a].name@ != before[b].name@ by {
            assert(before[a] == deps[a] && before[b] == deps[b]);
        }
    }
    if i < deps.len() - 1 {
        lookup_finds_named_entry(before, i);
        assert(before[i] == deps[i]);
    } else {
        lemma_lookup_found_named(before, name);
        if manifest_lookup(before, name) is Some {
            let d = manifest_lookup(before, name)->0;
            let k = choose|k: int| 0 <= k < before.len() && before[k] == d && d.name@ == name;
            assert(before[k] == deps[k]);
            assert(false);
        }
        assert(deps.last() == deps[i]);
    }
}

/// The requirements of the dependencies on `bevy` are those of the
/// dependencies named `bevy`, in order: the dependencies kept by the filter
/// "named `bevy`", each taken by its requirement.
pub proof fn bevy_reqs_are_filtered_requirements(deps: Seq<PackageDependency>)
    ensures
        bevy_reqs(deps) == deps.filter(|d: PackageDependency| d.name@ == "bevy"@).map_values(
            |d: PackageDependency| d.req@,
        ),
    decreases deps.len(),
{
    let pred = |d: PackageDependency| d.name@ == "bevy"@;
    let req = |d: PackageDependency| d.req@;
    reveal_with_fuel(Seq::<PackageDependency>::filter, 1);
    if deps.len() > 0 {
        bevy_reqs_are_filtered_requirements(deps.drop_last());
        let sub = deps.drop_last().filter(pred);
        assert(deps.filter(pred) == if pred(deps.last()) {
            sub.push(deps.last())
        } else {
            sub
        });
        if pred(deps.last()) {
            assert(sub.push(deps.last()).map_values(req) =~= sub.map_values(req).push(
                deps.last().req@,
            ));
        }
    } else {
        assert(deps.filter(pred).map_values(req) =~= Seq::<Seq<char>>::empty());
    }
}

/// Every dependency named `bevy` has its requirement listed.
proof fn lemma_bevy_reqs_complete(deps: Seq<PackageDependency>, j: int)
    requires
        0 <= j < deps.len(),
        deps[j].name@ == "bevy"@,
    ensures
        bevy_reqs(deps).contains(deps[j].req@),
    decreases deps.len(),
{
    let before = deps.drop_last();
    if j < deps.len() - 1 {
        lemma_bevy_reqs_complete(before, j);
        assert(before[j] == deps[j]);
        let m = choose|m: int| 0 <= m < bevy_reqs(before).len() && bevy_reqs(before)[m] == deps[j].req@;
        assert(bevy_reqs(deps)[m] == bevy_reqs(before)[m]);
    } else {
        assert(deps.last() == deps[j]);
        let n = bevy_reqs(before).len();
        assert(bevy_reqs(deps)[n as int] == deps[j].req@);
    }
}

/// Every dependency on `bevy` of a package other than the crate being
/// checked is listed as a dependent, whatever the package is called.
pub proof fn every_bevy_dependency_is_listed(
    ps: Seq<GraphPackage>,
    local: Seq<char>,
    k: int,
    j: int,
)
    requires
        0 <= k < ps.len(),
        0 <= j < ps[k].dependencies@.len(),
        ps[k].name@ != local,
        ps[k].dependencies@[j].name@ == "bevy"@,
    ensures
        bevy_dependents(ps, local).contains((ps[k].name@, ps[k].dependencies@[j].req@)),
    decreases ps.len(),
{
    let before = ps.drop_last();
    let item = (ps[k].name@, ps[k].dependencies@[j].req@);
    if k < ps.len() - 1 {
        assert(before[k] == ps[k]);
        every_bevy_dependency_is_listed(before, local, k, j);
        let m = choose|m: int|
            0 <= m < bevy_dependents(before, local).len() && bevy_dependents(before, local)[m] == item;
        assert(bevy_dependents(ps, local)[m] == bevy_dependents(before, local)[m]);
    } else {
        let last = ps.last();
        assert(last == ps[k]);
        lemma_bevy_reqs_complete(last.dependencies@, j);
        let reqs = bevy_reqs(last.dependencies@);
        let m = choose|m: int| 0 <= m < reqs.len() && reqs[m] == ps[k].dependencies@[j].req@;
        assert(package_bevy_deps(last, local)[m] == item);
        let n = bevy_dependents(before, local).len();
        assert(bevy_dependents(ps, local)[n + m] == item);
    }
}

/// The dependents of the crate itself are never listed.
pub proof fn local_crate_never_listed(ps: Seq<GraphPackage>, local: Seq<char>, i: int)
    requires
        0 <= i < bevy_dependents(ps, local).len(),
    ensures
        bevy_dependents(ps, local)[i].0 != local,
{
    lemma_dependent_source(ps, local, i);
}

/// The mismatched dependents are exactly those kept by the filter "the
/// requirement is known not to admit the target", in order.
pub proof fn mismatched_is_filter(ds: Seq<(Seq<char>, Seq<char>)>, target: Seq<char>)
    ensures
        mismatched(ds, target) == ds.filter(
            |d: (Seq<char>, Seq<char>)| semver_req_matches(d.1, target) == Some(false),
        ),
    decreases ds.len(),
{
    reveal_with_fuel(Seq::<(Seq<char>, Seq<char>)>::filter, 1);
    if ds.len() > 0 {
        mismatched_is_filter(ds.drop_last(), target);
    }
}

/// Every dependent whose requirement is known not to admit the target is
/// kept.
pub proof fn every_mismatch_is_kept(ds: Seq<(Seq<char>, Seq<char>)>, target: Seq<char>, i: int)
    requires
        0 <= i < ds.len(),
        semver_req_matches(ds[i].1, target) == Some(false),
    ensures
        mismatched(ds, target).contains(ds[i]),
    decreases ds.len(),
{
    let before = ds.drop_last();
    if i < ds.len() - 1 {
        assert(before[i] == ds[i]);
        every_mismatch_is_kept(before, target, i);
        let m = choose|m: int| 0 <= m < mismatched(before, target).len() && mismatched(before, target)[m] == ds[i];
        assert(mismatched(ds, target)[m] == mismatched(before, target)[m]);
    } else {
        assert(ds.last() == ds[i]);
        assert(mismatched(ds, target)[mismatched(before, target).len() as int] == ds[i]);
    }
}

/// The dependents of no package are none; adding a package adds, after the
/// dependents before it, one entry for each of its dependencies named `bevy`
/// (with the package's name and that dependency's requirement, in order),
/// unless it is the crate being checked.
pub proof fn bevy_dependents_by_package(ps: Seq<GraphPackage>, p: GraphPackage, local: Seq<char>)
    ensures
        bevy_dependents(Seq::<GraphPackage>::empty(), local) == Seq::<(Seq<char>, Seq<char>)>::empty(),
        bevy_dependents(ps.push(p), local) == bevy_dependents(ps, local) + if p.name@ == local {
            Seq::<(Seq<char>, Seq<char>)>::empty()
        } else {
            p.dependencies@.filter(|d: PackageDependency| d.name@ == "bevy"@).map_values(
                |d: PackageDependency| (p.name@, d.req@),
            )
        },
{
    let pred = |d: PackageDependency| d.name@ == "bevy"@;
    assert(ps.push(p).drop_last() =~= ps);
    bevy_reqs_are_filtered_requirements(p.dependencies@);
    let kept = p.dependencies@.filter(pred);
    assert(kept.map_values(|d: PackageDependency| d.req@).map_values(
        |r: Seq<char>| (p.name@, r),
    ) =~= kept.map_values(|d: PackageDependency| (p.name@, d.req@)));
}

/// There is one finding for each mismatched dependent, in the same order,
/// pointing at that dependent's entry of `Cargo.toml`.
pub proof fn one_finding_per_mismatched_dependent(
    manifest: Seq<ManifestDependency>,
    packages: Seq<GraphPackage>,
    local: Seq<char>,
    i: int,
)
    ensures
        ({
            let target = bevy_version_text(manifest)->0;
            let bad = mismatched(bevy_dependents(packages, local), target);
            let fs = lint_findings(manifest, packages, local);
            &&& fs.len() == bad.len()
            &&& 0 <= i < bad.len() ==> fs[i] == (
                bad[i].0,
                manifest_lookup(manifest, bad[i].0)->0.span_start,
                manifest_lookup(manifest, bad[i].0)->0.span_end,
                mismatch_message(semver_parse(target)->0),
            )
        }),
{
    let target = bevy_version_text(manifest)->0;
    let bad = mismatched(bevy_dependents(packages, local), target);
    let message = mismatch_message(semver_parse(target)->0);
    lemma_findings_len(manifest, bad, message);
    if 0 <= i < bad.len() {
        lemma_findings_shape(manifest, bad, message, i);
    }
}

/// A dependency written as a table asks for the string of its first
/// `version` entry, and for nothing when it has no such entry or that entry
/// is not a string.
pub proof fn table_version_is_first_version_entry(entries: Vec<TomlEntry>, i: int)
    ensures
        (forall|j: int| 0 <= j < entries@.len() ==> (#[trigger] entries@[j]).key@ != "version"@)
            ==> requested_version(DependencySpec::Table(entries)) is None,
        0 <= i < entries@.len() && entries@[i].key@ == "version"@ && (forall|j: int|
            0 <= j < i ==> (#[trigger] entries@[j]).key@ != "version"@) ==> requested_version(
            DependencySpec::Table(entries),
        ) == match entries@[i].text {
            Some(t) => Some(t@),
            None => None::<Seq<char>>,
        },
{
    lemma_table_lookup(entries@, "version"@, i);
}

/// A table lookup finds the first entry with the key, and nothing where no
/// entry has it.
proof fn lemma_table_lookup(entries: Seq<TomlEntry>, key: Seq<char>, i: int)
    ensures
        (forall|j: int| 0 <= j < entries.len() ==> (#[trigger] entries[j]).key@ != key)
            ==> table_lookup(entries, key) is None,
        0 <= i < entries.len() && entries[i].key@ == key && (forall|j: int|
            0 <= j < i ==> (#[trigger] entries[j]).key@ != key) ==> table_lookup(entries, key) == Some(
            match entries[i].text {
                Some(t) => Some(t@),
                None => None::<Seq<char>>,
            },
        ),
    decreases entries.len(),
{
    if entries.len() > 0 {
        let before = entries.drop_last();
        lemma_table_lookup(before, key, i);
        if forall|j: int| 0 <= j < entries.len() ==> (#[trigger] entries[j]).key@ != key {
            assert forall|j: int| 0 <= j < before.len() implies (#[trigger] before[j]).key@ != key by {
                assert(before[j] == entries[j]);
            }
            assert(entries.last() == entries[entries.len() - 1]);
        }
        if 0 <= i < entries.len() && entries[i].key@ == key && (forall|j: int|
            0 <= j < i ==> (#[trigger] entries[j]).key@ != key) {
            if i < entries.len() - 1 {
                assert(before[i] == entries[i]);
                assert forall|j: int| 0 <= j < i implies (#[trigger] before[j]).key@ != key by {
                    assert(before[j] == entries[j]);
                }
            } else {
                assert forall|j: int| 0 <= j < before.len() implies (#[trigger] before[j]).key@ != key by {
                    assert(before[j] == entries[j]);
                }
                assert(entries.last() == entries[i]);
            }
        }
    }
}

/// Looking up a name no dependency of `Cargo.toml` has finds nothing.
pub proof fn lookup_of_absent_name(deps: Seq<ManifestDependency>, name: Seq<char>)
    requires
        forall|j: int| 0 <= j < deps.len() ==> (#[trigger] deps[j]).name@ != name,
    ensures
        manifest_lookup(deps, name) is None,
{
    lemma_lookup_found_named(deps, name);
}

} // verus!
