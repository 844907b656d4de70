//! What the file watcher reacts to: which events it forwards, which changed
//! files count, when a change asks for a rebuild, and which directories are
//! watched at all.

use vstd::prelude::*;
use crate::text::texts;
use crate::paths::{
    path_components, path_eq, path_extension, path_parent, std_path_components, std_path_eq,
    std_path_extension, std_path_parent,
};

verus! {

/// The kind of a file system event, as the watcher reports it.
#[derive(Debug, Clone, Copy, PartialEq, Eq)]
pub enum EventKind {
    Any,
    Access,
    Create,
    Modify,
    Remove,
    Other,
}

/// Creations, modifications and removals are passed on; everything else is
/// dropped.
pub open spec fn forwards(kind: EventKind) -> bool {
    kind is Create || kind is Modify || kind is Remove
}

/// Whether an event of this kind is passed on to the watch loop.
pub fn should_forward(kind: EventKind) -> (r: bool)
    ensures
        r == forwards(kind),
{
    match kind {
        EventKind::Create | EventKind::Modify | EventKind::Remove => true,
        _ => false,
    }
}

/// A path named by an event, with the size the file system reported for it
/// (`None` where its metadata could not be read).
#[derive(Debug, Clone)]
pub struct PathProbe {
    pub path: String,
    pub size: Option<u64>,
}

/// A path counts as changed unless the file system reports it empty: events
/// for files without any data are ignored.
pub open spec fn counts_as_changed(p: PathProbe) -> bool {
    p.size != Some(0u64)
}

/// The changed paths among the probes, in order.
pub open spec fn changed_paths(ps: Seq<PathProbe>) -> Seq<Seq<char>>
    decreases ps.len(),
{
    if ps.len() == 0 {
        seq![]
    } else {
        let rest = changed_paths(ps.drop_last());
        if counts_as_changed(ps.last()) {
            rest.push(ps.last().path@)
        } else {
            rest
        }
    }
}

/// The paths of the events that count as changes, in the order the events
/// came.
pub fn changed_files(probes: &Vec<PathProbe>) -> (r: Vec<String>)
    ensures
        texts(r@) == changed_paths(probes@),
{
    let mut r: Vec<String> = Vec::new();
    let mut i: usize = 0;
    while i < probes.len()
        invariant
            i <= probes@.len(),
            texts(r@) == changed_paths(probes@.take(i as int)),
        decreases probes@.len() - i,
    {
        let probe = &probes[i];
        proof {
            assert(probes@.take(i + 1).drop_last() =~= probes@.take(i as int));
        }
        let keep = match probe.size {
            Some(n) => n != 0,
            None => true,
        };
        if keep {
            r.push(probe.path.clone());
        }
        assert(texts(r@) =~= changed_paths(probes@.take(i + 1)));
        i = i + 1;
    }
    assert(probes@.take(probes@.len() as int) =~= probes@);
    r
}

/// A changed file is a Rust source when its extension is `rs`.
pub open spec fn is_rust_source(f: Seq<char>) -> bool {
    std_path_extension(f) == Some("rs"@)
}

/// How many of the changed files are the package manifest.
pub open spec fn manifest_changes(files: Seq<Seq<char>>, manifest: Seq<char>) -> nat
    decreases files.len(),
{
    if files.len() == 0 {
        0
    } else {
        manifest_changes(files.drop_last(), manifest) + if std_path_eq(files.last(), manifest) {
            1nat
        } else {
            0nat
        }
    }
}

/// A change asks for a rebuild when some changed file is a Rust source or the
/// package manifest.
pub open spec fn asks_rebuild(files: Seq<Seq<char>>, manifest: Seq<char>) -> bool {
    exists|i: int|
        0 <= i < files.len() && (std_path_eq(#[trigger] files[i], manifest) || is_rust_source(
            files[i],
        ))
}

/// What a batch of changed files asks of the watcher: how many times the
/// configuration is read again (once per change of the manifest, in order;
/// the first failing read ends the batch), and whether the app is rebuilt
/// afterwards.
#[derive(Debug, Clone, Copy, PartialEq, Eq)]
pub struct FileChangePlan {
    pub config_reloads: usize,
    pub rebuild: bool,
}

/// Decides what a batch of changed files asks for.
pub fn plan_file_changes(files: &Vec<String>, manifest_path: &String) -> (r: FileChangePlan)
    ensures
        r.config_reloads == manifest_changes(texts(files@), manifest_path@),
        r.rebuild == asks_rebuild(texts(files@), manifest_path@),
{
    let ghost all = texts(files@);
    let mut reloads: usize = 0;
    let mut rebuild = false;
    let mut i: usize = 0;
    let rs = String::from_str("rs");
    while i < files.len()
        invariant
            i <= files@.len(),
            all == texts(files@),
            rs@ == "rs"@,
            reloads == manifest_changes(all.take(i as int), manifest_path@),
            reloads <= i,
            rebuild == asks_rebuild(all.take(i as int), manifest_path@),
        decreases files@.len() - i,
    {
        let file = &files[i];
        let ghost prefix = all.take(i as int);
        let ghost next = all.take(i + 1);
        proof {
            assert(next.drop_last() =~= prefix);
            assert(next.last() == file@);
        }
        let is_manifest = path_eq(file.as_str(), manifest_path.as_str());
        if is_manifest {
            reloads = reloads + 1;
            rebuild = true;
        }
        let is_rust = match path_extension(file.as_str()) {
            Some(ext) => ext == rs,
            None => false,
        };
        if is_rust {
            rebuild = true;
        }
        proof {
            if asks_rebuild(next, manifest_path@) {
                let j = choose|j: int|
                    0 <= j < next.len() && (std_path_eq(#[trigger] next[j], manifest_path@)
                        || is_rust_source(next[j]));
                if j < i {
                    assert(prefix[j] == next[j]);
                }
            }
            if asks_rebuild(prefix, manifest_path@) {
                let j = choose|j: int|
                    0 <= j < prefix.len() && (std_path_eq(#[trigger] prefix[j], manifest_path@)
                        || is_rust_source(prefix[j]));
                assert(prefix[j] == next[j]);
            }
            if is_manifest || is_rust {
                assert(std_path_eq(next[i as int], manifest_path@) || is_rust_source(next[i as int]));
            }
        }
        i = i + 1;
    }
    assert(all.take(files@.len() as int) =~= all);
    FileChangePlan { config_reloads: reloads, rebuild }
}

/// A manifest inside a `.cargo` directory belongs to no package worth
/// watching.
pub open spec fn in_cargo_dir(p: Seq<char>) -> bool {
    std_path_components(p).contains(".cargo"@)
}

/// The directories watched for a workspace: the directory of every package
/// manifest that is not inside a `.cargo` directory, in order.
pub open spec fn watched_dirs(manifests: Seq<Seq<char>>) -> Seq<Seq<char>>
    decreases manifests.len(),
{
    if manifests.len() == 0 {
        seq![]
    } else {
        let rest = watched_dirs(manifests.drop_last());
        if in_cargo_dir(manifests.last()) {
            rest
        } else {
            rest.push(std_path_parent(manifests.last())->0)
        }
    }
}

/// Every manifest that is watched has a directory.
pub open spec fn dirs_known(manifests: Seq<Seq<char>>) -> bool {
    forall|i: int|
        0 <= i < manifests.len() && !in_cargo_dir(#[trigger] manifests[i])
            ==> std_path_parent(manifests[i]) is Some
}

/// Whether a manifest path has a `.cargo` component.
fn has_cargo_component(p: &String) -> (r: bool)
    ensures
        r == in_cargo_dir(p@),
{
    let components = path_components(p.as_str());
    let dot_cargo = String::from_str(".cargo");
    let ghost cs = std_path_components(p@);
    let mut i: usize = 0;
    while i < components.len()
        invariant
            i <= components@.len(),
            cs == std_path_components(p@),
            components@.len() == cs.len(),
            forall|k: int| 0 <= k < components@.len() ==> #[trigger] components@[k]@ == cs[k],
            dot_cargo@ == ".cargo"@,
            forall|k: int| 0 <= k < i ==> cs[k] != ".cargo"@,
        decreases components@.len() - i,
    {
        let same = components[i] == dot_cargo;
        assert(components@[i as int]@ == cs[i as int]);
        if same {
            assert(cs[i as int] == ".cargo"@);
            assert(cs.contains(".cargo"@));
            return true;
        }
        i = i + 1;
    }
    proof {
        if cs.contains(".cargo"@) {
            let k = choose|k: int| 0 <= k < cs.len() && cs[k] == ".cargo"@;
            assert(cs[k] != ".cargo"@);
        }
    }
    false
}

/// The directories to watch for the workspace whose package manifests are
/// given: the directory of each manifest, in order, leaving out manifests
/// inside a `.cargo` directory.
pub fn paths_to_watch(manifests: &Vec<String>) -> (r: Vec<String>)
    requires
        dirs_known(texts(manifests@)),
    ensures
        texts(r@) == watched_dirs(texts(manifests@)),
{
    let ghost all = texts(manifests@);
    let mut r: Vec<String> = Vec::new();
    let mut i: usize = 0;
    while i < manifests.len()
        invariant
            i <= manifests@.len(),
            all == texts(manifests@),
            dirs_known(all),
            texts(r@) == watched_dirs(all.take(i as int)),
        decreases manifests@.len() - i,
    {
        let manifest = &manifests[i];
        proof {
            assert(all.take(i + 1).drop_last() =~= all.take(i as int));
            assert(all.take(i + 1).last() == manifest@);
            assert(all[i as int] == manifest@);
        }
        if !has_cargo_component(manifest) {
            match path_parent(manifest.as_str()) {
                Some(dir) => {
                    r.push(dir);
                },
                None => {
                    assert(false);
                },
            }
        }
        assert(texts(r@) =~= watched_dirs(all.take(i + 1)));
        i = i + 1;
    }
    assert(all.take(manifests@.len() as int) =~= all);
    r
}

/// Whether every watched manifest of the workspace has a directory.
fn all_dirs_known(manifests: &Vec<String>) -> (r: bool)
    ensures
        r == dirs_known(texts(manifests@)),
{
    let ghost all = texts(manifests@);
    let mut i: usize = 0;
    while i < manifests.len()
        invariant
            i <= manifests@.len(),
            all == texts(manifests@),
            forall|k: int|
                0 <= k < i && !in_cargo_dir(#[trigger] all[k]) ==> std_path_parent(all[k]) is Some,
        decreases manifests@.len() - i,
    {
        let manifest = &manifests[i];
        assert(all[i as int] == manifest@);
        if !has_cargo_component(manifest) && path_parent(manifest.as_str()).is_none() {
            return false;
        }
        i = i + 1;
    }
    true
}

/// A directory or file to watch, and whether to watch it with everything
/// below it.
#[derive(Debug, Clone)]
pub struct WatchTarget {
    pub path: String,
    pub recursive: bool,
}

/// The text of a watch target and whether it is recursive.
pub open spec fn target_view(t: WatchTarget) -> (Seq<char>, bool) {
    (t.path@, t.recursive)
}

/// What is watched: every package directory of the workspace with everything
/// below it, then the manifest of the running package by itself (a change to
/// it may change the configuration).
pub open spec fn watch_plan(manifests: Seq<Seq<char>>, package_manifest: Seq<char>) -> Seq<
    (Seq<char>, bool),
> {
    watched_dirs(manifests).map_values(|d: Seq<char>| (d, true)).push((package_manifest, false))
}

/// The targets to watch; `None` where a watched manifest has no directory.
pub fn watch_targets(manifests: &Vec<String>, package_manifest: &String) -> (r: Option<
    Vec<WatchTarget>,
>)
    ensures
        r is Some <==> dirs_known(texts(manifests@)),
        r matches Some(ts) ==> ts@.map_values(|t: WatchTarget| target_view(t)) == watch_plan(
            texts(manifests@),
            package_manifest@,
        ),
{
    if !all_dirs_known(manifests) {
        return None;
    }
    let dirs = paths_to_watch(manifests);
    let ghost want = watch_plan(texts(manifests@), package_manifest@);
    let mut ts: Vec<WatchTarget> = Vec::new();
    let mut i: usize = 0;
    while i < dirs.len()
        invariant
            i <= dirs@.len(),
            texts(dirs@) == watched_dirs(texts(manifests@)),
            ts@.len() == i,
            forall|k: int|
                0 <= k < i ==> #[trigger] target_view(ts@[k]) == (dirs@[k]@, true),
        decreases dirs@.len() - i,
    {
        ts.push(WatchTarget { path: dirs[i].clone(), recursive: true });
        i = i + 1;
    }
    ts.push(WatchTarget { path: package_manifest.clone(), recursive: false });
    proof {
        let got = ts@.map_values(|t: WatchTarget| target_view(t));
        assert(got.len() == want.len());
        assert forall|k: int| 0 <= k < got.len() implies got[k] == want[k] by {
            if k < dirs@.len() {
                assert(texts(dirs@)[k] == dirs@[k]@);
            }
        }
        assert(got =~= want);
    }
    Some(ts)
}

/// A batch asks for a rebuild when any of its files, wherever it stands in
/// the batch, is the manifest or has the extension `rs`.
pub proof fn any_rust_source_or_manifest_rebuilds(files: Seq<Seq<char>>, manifest: Seq<char>, i: int)
    requires
        0 <= i < files.len(),
        std_path_eq(files[i], manifest) || std_path_extension(files[i]) == Some("rs"@),
    ensures
        asks_rebuild(files, manifest),
{
    assert(std_path_eq(files[i], manifest) || is_rust_source(files[i]));
}

/// A batch asks for a rebuild only when one of its files is the manifest or
/// has the extension `rs`.
pub proof fn rebuild_needs_rust_source_or_manifest(files: Seq<Seq<char>>, manifest: Seq<char>)
    requires
        asks_rebuild(files, manifest),
    ensures
        exists|i: int|
            0 <= i < files.len() && (std_path_eq(#[trigger] files[i], manifest) || std_path_extension(
                files[i],
            ) == Some("rs"@)),
{
}

/// Two batches taken together ask for a rebuild exactly when one of them
/// does; in particular more files never take a rebuild back.
pub proof fn rebuild_of_joined_batches(a: Seq<Seq<char>>, b: Seq<Seq<char>>, manifest: Seq<char>)
    ensures
        asks_rebuild(a + b, manifest) == (asks_rebuild(a, manifest) || asks_rebuild(b, manifest)),
{
    let ab = a + b;
    if asks_rebuild(a, manifest) {
        let i = choose|i: int|
            0 <= i < a.len() && (std_path_eq(#[trigger] a[i], manifest) || is_rust_source(a[i]));
        assert(ab[i] == a[i]);
    }
    if asks_rebuild(b, manifest) {
        let i = choose|i: int|
            0 <= i < b.len() && (std_path_eq(#[trigger] b[i], manifest) || is_rust_source(b[i]));
        assert(ab[a.len() + i] == b[i]);
    }
    if asks_rebuild(ab, manifest) {
        let i = choose|i: int|
            0 <= i < ab.len() && (std_path_eq(#[trigger] ab[i], manifest) || is_rust_source(ab[i]));
        if i < a.len() {
            assert(a[i] == ab[i]);
        } else {
            assert(b[i - a.len()] == ab[i]);
        }
    }
}

/// The configuration is read once for each file of the batch that is the
/// manifest: none for no files, one for a single manifest, and the counts of
/// two batches add up.
pub proof fn config_reloads_count_manifests(a: Seq<Seq<char>>, b: Seq<Seq<char>>, f: Seq<char>, manifest: Seq<char>)
    ensures
        manifest_changes(Seq::<Seq<char>>::empty(), manifest) == 0,
        manifest_changes(seq![f], manifest) == if std_path_eq(f, manifest) {
            1nat
        } else {
            0nat
        },
        manifest_changes(a + b, manifest) == manifest_changes(a, manifest) + manifest_changes(b, manifest),
    decreases b.len(),
{
    assert(seq![f].drop_last() =~= Seq::<Seq<char>>::empty());
    if b.len() > 0 {
        config_reloads_count_manifests(a, b.drop_last(), f, manifest);
        assert((a + b).drop_last() =~= a + b.drop_last());
        assert((a + b).last() == b.last());
    } else {
        assert(a + b =~= a);
    }
}

/// The changed paths are the paths of the probes kept by the filter "not
/// reported empty", in order.
pub proof fn changed_paths_are_filtered(ps: Seq<PathProbe>)
    ensures
        changed_paths(ps) == ps.filter(|p: PathProbe| p.size != Some(0u64)).map_values(
            |p: PathProbe| p.path@,
        ),
    decreases ps.len(),
{
    let pred = |p: PathProbe| p.size != Some(0u64);
    let path = |p: PathProbe| p.path@;
    reveal_with_fuel(Seq::<PathProbe>::filter, 1);
    if ps.len() > 0 {
        changed_paths_are_filtered(ps.drop_last());
        let sub = ps.drop_last().filter(pred);
        if pred(ps.last()) {
            assert(sub.push(ps.last()).map_values(path) =~= sub.map_values(path).push(ps.last().path@));
        }
    } else {
        assert(ps.filter(pred).map_values(path) =~= Seq::<Seq<char>>::empty());
    }
}

/// The watched directories are the directories of the manifests kept by the
/// filter "no `.cargo` component", in order.
pub proof fn watched_dirs_are_filtered(ms: Seq<Seq<char>>)
    ensures
        watched_dirs(ms) == ms.filter(|m: Seq<char>| !std_path_components(m).contains(".cargo"@)).map_values(
            |m: Seq<char>| std_path_parent(m)->0,
        ),
    decreases ms.len(),
{
    let pred = |m: Seq<char>| !std_path_components(m).contains(".cargo"@);
    let dir = |m: Seq<char>| std_path_parent(m)->0;
    reveal_with_fuel(Seq::<Seq<char>>::filter, 1);
    if ms.len() > 0 {
        watched_dirs_are_filtered(ms.drop_last());
        let sub = ms.drop_last().filter(pred);
        if pred(ms.last()) {
            assert(sub.push(ms.last()).map_values(dir) =~= sub.map_values(dir).push(dir(ms.last())));
        }
    } else {
        assert(ms.filter(pred).map_values(dir) =~= Seq::<Seq<char>>::empty());
    }
}

/// Creations, modifications and removals are passed on; accesses and other
/// events are not.
pub proof fn forwarded_kinds()
    ensures
        forwards(EventKind::Create) && forwards(EventKind::Modify) && forwards(EventKind::Remove),
        !forwards(EventKind::Any) && !forwards(EventKind::Access) && !forwards(EventKind::Other),
{
}

/// The watch plan holds every watched directory, with everything below it,
/// then the package manifest alone, last.
pub proof fn watch_plan_shape(ms: Seq<Seq<char>>, manifest: Seq<char>, i: int)
    ensures
        watch_plan(ms, manifest).len() == watched_dirs(ms).len() + 1,
        watch_plan(ms, manifest).last() == (manifest, false),
        0 <= i < watched_dirs(ms).len() ==> watch_plan(ms, manifest)[i] == (watched_dirs(ms)[i], true),
{
}

} // verus!
