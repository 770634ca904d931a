//! Where an adapter's project and user config files are looked for.

use vstd::prelude::*;

verus! {

/// `Path::new(base).join(rel)` as text.
pub uninterp spec fn joined(base: Seq<char>, rel: Seq<char>) -> Seq<char>;

/// `Path::new(p).is_absolute()`.
pub uninterp spec fn absolute(p: Seq<char>) -> bool;

/// `Path::new(p).parent()` as text.
pub uninterp spec fn parent_of(p: Seq<char>) -> Option<Seq<char>>;

/// `std::path::Path::join`: the path `rel` adjoined to `base`, as text. An
/// absolute `rel` replaces `base`, as the documentation of `PathBuf::push`
/// says; of other paths only that the text depends on the two alone is
/// stated.
#[verifier::external_body]
fn path_join(base: &str, rel: &str) -> (r: String)
    ensures
        r@ == joined(base@, rel@),
        absolute(rel@) ==> r@ == rel@,
{
    std::path::Path::new(base).join(rel).to_string_lossy().into_owned()
}

/// `std::path::Path::is_absolute`. Only that the answer depends on the path
/// alone is stated.
#[verifier::external_body]
fn path_is_absolute(p: &str) -> (r: bool)
    ensures
        r == absolute(p@),
{
    std::path::Path::new(p).is_absolute()
}

/// `std::path::Path::parent`: the path without its final component, which
/// is therefore shorter, or none for a root or an empty path.
#[verifier::external_body]
fn path_parent(p: &str) -> (r: Option<String>)
    ensures
        match r {
            Some(q) => parent_of(p@) == Some(q@) && q@.len() < p@.len(),
            None => parent_of(p@) is None,
        },
{
    std::path::Path::new(p).parent().map(|q| q.to_string_lossy().into_owned())
}

/// `std::path::Path::is_dir`: whether a directory is at the path now. What
/// it answers depends on the file system, so nothing is stated of it.
#[verifier::external_body]
fn path_is_dir(p: &str) -> (r: bool) {
    std::path::Path::new(p).is_dir()
}

/// The `k`-th ancestor of a path: the path itself, its parent, and so on.
pub open spec fn ancestor(p: Seq<char>, k: nat) -> Option<Seq<char>>
    decreases k,
{
    if k == 0 {
        Some(p)
    } else {
        match ancestor(p, (k - 1) as nat) {
            Some(q) => parent_of(q),
            None => None,
        }
    }
}

/// The level of a config source.
#[derive(Clone, Copy, Debug, PartialEq, Eq, Structural)]
pub enum ConfigSourceLevel {
    Project,
    User,
}

/// Whether a config path is the default one or was given.
#[derive(Clone, Copy, Debug, PartialEq, Eq, Structural)]
pub enum ConfigPathOrigin {
    Default,
    Override,
}

/// Config paths given on the command line.
#[derive(Debug, Default)]
pub struct ConfigPathOverrides {
    pub project: Option<String>,
    pub user: Option<String>,
}

/// A config file to read: its level, where its path came from, and the path.
#[derive(Debug, PartialEq)]
pub struct ConfigSourcePath {
    pub level: ConfigSourceLevel,
    pub origin: ConfigPathOrigin,
    pub path: String,
}

/// The name of the directory that marks a project root.
pub open spec fn docnav_dir() -> Seq<char> {
    ".docnav"@
}

/// The file name of an adapter's config.
pub open spec fn config_file_name(adapter_id: Seq<char>) -> Seq<char> {
    adapter_id + ".json"@
}

/// A given path, taken from the startup directory where it is relative.
pub open spec fn absolutized(cwd: Seq<char>, path: Seq<char>) -> Seq<char> {
    if absolute(path) {
        path
    } else {
        joined(cwd, path)
    }
}

/// Where a config source is read: the given path, or else the default.
pub open spec fn source_path_spec(cwd: Seq<char>, override_path: Option<Seq<char>>, default_path: Seq<char>) -> (ConfigPathOrigin, Seq<char>) {
    match override_path {
        Some(p) => (ConfigPathOrigin::Override, absolutized(cwd, p)),
        None => (ConfigPathOrigin::Default, default_path),
    }
}

/// The default project config: `.docnav/<adapter>.json` under the project root.
pub open spec fn default_project_path(project_root: Seq<char>, adapter_id: Seq<char>) -> Seq<char> {
    joined(joined(project_root, docnav_dir()), config_file_name(adapter_id))
}

/// The default user config: `<adapter>.json` in the user config directory,
/// or in the startup directory when there is none.
pub open spec fn default_user_path(user_dir: Option<Seq<char>>, cwd: Seq<char>, adapter_id: Seq<char>) -> Seq<char> {
    joined(
        match user_dir {
            Some(d) => d,
            None => cwd,
        },
        config_file_name(adapter_id),
    )
}

pub open spec fn opt_view(o: Option<String>) -> Option<Seq<char>> {
    match o {
        Some(s) => Some(s@),
        None => None,
    }
}

pub open spec fn opt_str_view(o: Option<&str>) -> Option<Seq<char>> {
    match o {
        Some(s) => Some(s@),
        None => None,
    }
}

fn config_source_path(level: ConfigSourceLevel, startup_cwd: &str, override_path: Option<String>, default_path: String) -> (r: ConfigSourcePath)
    ensures
        r.level == level,
        (r.origin, r.path@) == source_path_spec(startup_cwd@, opt_view(override_path), default_path@),
{
    match override_path {
        Some(p) => {
            let path = if path_is_absolute(p.as_str()) {
                p
            } else {
                path_join(startup_cwd, p.as_str())
            };
            ConfigSourcePath { level, origin: ConfigPathOrigin::Override, path }
        },
        None => ConfigSourcePath { level, origin: ConfigPathOrigin::Default, path: default_path },
    }
}

/// The config sources of an adapter, given the project root: the project
/// config under the root, the user config in the user config directory or
/// the startup directory, each replaced by a given path.
pub fn resolve_config_paths_from_root(
    adapter_id: &str,
    default_user_config_dir: Option<&str>,
    startup_cwd: &str,
    project_root: &str,
    overrides: ConfigPathOverrides,
) -> (r: (ConfigSourcePath, ConfigSourcePath))
    ensures
        r.0.level == ConfigSourceLevel::Project,
        (r.0.origin, r.0.path@) == source_path_spec(startup_cwd@, opt_view(overrides.project), default_project_path(project_root@, adapter_id@)),
        r.1.level == ConfigSourceLevel::User,
        (r.1.origin, r.1.path@) == source_path_spec(
            startup_cwd@,
            opt_view(overrides.user),
            default_user_path(opt_str_view(default_user_config_dir), startup_cwd@, adapter_id@),
        ),
{
    let mut file_name = String::from_str(adapter_id);
    file_name.append(".json");
    let docnav = path_join(project_root, ".docnav");
    let default_project = path_join(docnav.as_str(), file_name.as_str());
    let user_dir = match default_user_config_dir {
        Some(d) => d,
        None => startup_cwd,
    };
    let default_user = path_join(user_dir, file_name.as_str());
    (
        config_source_path(ConfigSourceLevel::Project, startup_cwd, overrides.project, default_project),
        config_source_path(ConfigSourceLevel::User, startup_cwd, overrides.user, default_user),
    )
}

/// The directory whose presence marks `candidate` as a project root.
pub fn root_marker_path(candidate: &str) -> (r: String)
    ensures
        r@ == joined(candidate@, docnav_dir()),
{
    path_join(candidate, ".docnav")
}

/// What the root search does next at a candidate directory.
#[derive(Debug, PartialEq, Eq)]
pub enum RootStep {
    /// The candidate holds the marker: it is the project root.
    Found(String),
    /// No marker: go on with the candidate's parent.
    Up(String),
    /// No marker and no parent: the search falls back to the startup directory.
    Fallback,
}

/// One step of the root search, given whether the candidate's marker
/// (`root_marker_path`) is a directory and the candidate's parent.
pub fn project_root_step(candidate: String, marker_is_dir: bool, parent: Option<String>) -> (r: RootStep)
    ensures
        marker_is_dir ==> (r matches RootStep::Found(c) && c@ == candidate@),
        !marker_is_dir && parent is Some ==> (r matches RootStep::Up(p) && p@ == parent->0@),
        !marker_is_dir && parent is None ==> r is Fallback,
{
    if marker_is_dir {
        RootStep::Found(candidate)
    } else {
        match parent {
            Some(p) => RootStep::Up(p),
            None => RootStep::Fallback,
        }
    }
}

/// Whether `probe` may answer `answer` for the path `p`.
pub open spec fn probe_answers<F: Fn(&str) -> bool>(probe: F, p: Seq<char>, answer: bool) -> bool {
    exists|s: &str| s@ == p && #[trigger] probe.ensures((s,), answer)
}

/// The marker path of the `k`-th ancestor of `p`.
pub open spec fn ancestor_marker(p: Seq<char>, k: nat) -> Seq<char> {
    joined(ancestor(p, k)->0, docnav_dir())
}

/// The project root, with `probe` telling whether a marker path is a
/// directory: the nearest of the startup directory and its ancestors whose
/// marker the probe finds, all nearer ones having been probed without it;
/// when no ancestor up to the root has it, the startup directory.
pub fn find_project_root_with<F: Fn(&str) -> bool>(startup_cwd: &str, probe: F) -> (r: String)
    requires
        forall|s: &str| probe.requires((s,)),
    ensures
        exists|k: nat|
            {
                &&& ancestor(startup_cwd@, k) is Some
                &&& forall|j: nat|
                    j < k ==> (#[trigger] ancestor(startup_cwd@, j)) is Some && probe_answers(
                        probe,
                        ancestor_marker(startup_cwd@, j),
                        false,
                    )
                &&& {
                    ||| probe_answers(probe, ancestor_marker(startup_cwd@, k), true) && r@ == ancestor(startup_cwd@, k)->0
                    ||| probe_answers(probe, ancestor_marker(startup_cwd@, k), false) && parent_of(
                        ancestor(startup_cwd@, k)->0,
                    ) is None && r@ == startup_cwd@
                }
            },
{
    let mut candidate = String::from_str(startup_cwd);
    let ghost mut k: nat = 0;
    assert(ancestor(startup_cwd@, 0) == Some(startup_cwd@));
    loop
        invariant
            forall|s: &str| probe.requires((s,)),
            ancestor(startup_cwd@, k) == Some(candidate@),
            forall|j: nat|
                j < k ==> (#[trigger] ancestor(startup_cwd@, j)) is Some && probe_answers(
                    probe,
                    ancestor_marker(startup_cwd@, j),
                    false,
                ),
        ensures
            ancestor(startup_cwd@, k) is Some,
            forall|j: nat|
                j < k ==> (#[trigger] ancestor(startup_cwd@, j)) is Some && probe_answers(
                    probe,
                    ancestor_marker(startup_cwd@, j),
                    false,
                ),
            probe_answers(probe, ancestor_marker(startup_cwd@, k), false),
            parent_of(ancestor(startup_cwd@, k)->0) is None,
        decreases candidate@.len(),
    {
        let marker = root_marker_path(candidate.as_str());
        let marker_is_dir = probe(marker.as_str());
        assert(probe_answers(probe, ancestor_marker(startup_cwd@, k), marker_is_dir));
        let parent = path_parent(candidate.as_str());
        let ghost before = candidate@;
        match project_root_step(candidate, marker_is_dir, parent) {
            RootStep::Found(c) => {
                assert(probe_answers(probe, ancestor_marker(startup_cwd@, k), true) && c@ == ancestor(startup_cwd@, k)->0);
                return c;
            },
            RootStep::Up(p) => {
                proof {
                    assert(ancestor(startup_cwd@, k + 1) == parent_of(before));
                    k = k + 1;
                }
                candidate = p;
            },
            RootStep::Fallback => {
                break;
            },
        }
    }
    assert(probe_answers(probe, ancestor_marker(startup_cwd@, k), false) && parent_of(ancestor(startup_cwd@, k)->0) is None);
    String::from_str(startup_cwd)
}

/// The project root: the nearest of the startup directory and its
/// ancestors whose marker is a directory, else the startup directory, as
/// `find_project_root_with` finds it with the file system as its probe.
/// Which one that is depends on the file system; it is always the startup
/// directory or one of its ancestors.
pub fn find_project_root(startup_cwd: &str) -> (r: String)
    ensures
        exists|k: nat| ancestor(startup_cwd@, k) == Some(r@),
{
    let r = find_project_root_with(startup_cwd, |m: &str| path_is_dir(m));
    assert(ancestor(startup_cwd@, 0) == Some(startup_cwd@));
    r
}

/// The config sources of an adapter, with the project root found from the
/// startup directory.
pub fn resolve_config_paths(
    adapter_id: &str,
    default_user_config_dir: Option<&str>,
    startup_cwd: &str,
    overrides: ConfigPathOverrides,
) -> (r: (ConfigSourcePath, ConfigSourcePath))
    ensures
        r.0.level == ConfigSourceLevel::Project,
        exists|root: Seq<char>|
            (exists|k: nat| ancestor(startup_cwd@, k) == Some(root)) && (r.0.origin, r.0.path@) == source_path_spec(
                startup_cwd@,
                opt_view(overrides.project),
                default_project_path(root, adapter_id@),
            ),
        r.1.level == ConfigSourceLevel::User,
        (r.1.origin, r.1.path@) == source_path_spec(
            startup_cwd@,
            opt_view(overrides.user),
            default_user_path(opt_str_view(default_user_config_dir), startup_cwd@, adapter_id@),
        ),
{
    let root = find_project_root(startup_cwd);
    let r = resolve_config_paths_from_root(adapter_id, default_user_config_dir, startup_cwd, root.as_str(), overrides);
    assert(exists|k: nat| ancestor(startup_cwd@, k) == Some(root@));
    r
}

} // verus!
